//! Verified core of a checkbox-style task list application.
//!
//! The library holds everything with real design weight: the task model,
//! the line-oriented persistence codec, the wrap-around list navigator,
//! the single-line text sub-editor, and the mode-dependent action
//! dispatch and update logic. Terminal plumbing (raw mode, rendering,
//! argument parsing, file reads and writes) lives outside, handing the
//! library plain values and taking plain values back.

pub mod app;
pub mod codec;
pub mod editor;
pub mod list;
pub mod task_item;
