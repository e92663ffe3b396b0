//! The action-driven core: mode-dependent key dispatch and the update
//! function that applies one action to the application state.
//!
//! Key resolution is a pure lookup over `(mode, event)`; the update
//! function changes state and reports, instead of performing, its two
//! side effects: an optional follow-up action for the loop to apply
//! before the next event, and whether the task list changed and must
//! be written back to storage.

use vstd::prelude::*;
use crate::editor::{edited, empty_editor, Editor, Key};
use crate::list::{next_selected, previous_selected, TaskList};
use crate::task_item::{toggled, TaskItem, TaskModel, TaskState};

verus! {

/// The interaction mode: it decides which key table applies and
/// whether the sub-editor is visible.
#[derive(Clone, Copy, Debug, PartialEq, Eq)]
pub enum Mode {
    Normal,
    Create,
    Edit,
}

/// One event out of the multiplexed stream: a periodic tick, a
/// periodic render request, or a key press.
#[derive(Clone, Copy, Debug, PartialEq, Eq)]
pub enum Event {
    Tick,
    Render,
    Key(Key),
}

/// A discrete intent, resolved from an event and consumed exactly once
/// by `update`.
#[derive(Clone, Copy, Debug, PartialEq, Eq)]
pub enum Action {
    Tick,
    Render,
    Quit,
    NextTask,
    PreviousTask,
    ToggleTask,
    SwitchMode(Mode),
    ClearBuffer,
    SubmitCreate,
    SubmitEdit,
    ForwardKeyToEditor(Key),
    NoOp,
}

/// The key table: which action an event resolves to under each mode.
pub open spec fn action_of(mode: Mode, event: Event) -> Action {
    match event {
        Event::Tick => Action::Tick,
        Event::Render => Action::Render,
        Event::Key(k) => match mode {
            Mode::Normal => if k == Key::Char('j') {
                Action::NextTask
            } else if k == Key::Char('k') {
                Action::PreviousTask
            } else if k == Key::Char(' ') {
                Action::ToggleTask
            } else if k == Key::Char('q') {
                Action::Quit
            } else if k == Key::Char('e') {
                Action::SwitchMode(Mode::Edit)
            } else if k == Key::Enter {
                Action::SwitchMode(Mode::Create)
            } else {
                Action::NoOp
            },
            Mode::Create => if k == Key::Esc {
                Action::ClearBuffer
            } else if k == Key::Enter {
                Action::SubmitCreate
            } else {
                Action::ForwardKeyToEditor(k)
            },
            Mode::Edit => if k == Key::Esc {
                Action::ClearBuffer
            } else if k == Key::Enter {
                Action::SubmitEdit
            } else {
                Action::ForwardKeyToEditor(k)
            },
        },
    }
}

/// Resolves one event into an action under the current mode. A pure
/// lookup, fully decoupled from rendering and from `update`.
pub fn get_action(mode: &Mode, event: &Event) -> (r: Action)
    ensures
        r == action_of(*mode, *event),
{
    match event {
        Event::Tick => Action::Tick,
        Event::Render => Action::Render,
        Event::Key(k) => match mode {
            Mode::Normal => match k {
                Key::Char('j') => Action::NextTask,
                Key::Char('k') => Action::PreviousTask,
                Key::Char(' ') => Action::ToggleTask,
                Key::Char('q') => Action::Quit,
                Key::Char('e') => Action::SwitchMode(Mode::Edit),
                Key::Enter => Action::SwitchMode(Mode::Create),
                _ => Action::NoOp,
            },
            Mode::Create => match k {
                Key::Esc => Action::ClearBuffer,
                Key::Enter => Action::SubmitCreate,
                _ => Action::ForwardKeyToEditor(*k),
            },
            Mode::Edit => match k {
                Key::Esc => Action::ClearBuffer,
                Key::Enter => Action::SubmitEdit,
                _ => Action::ForwardKeyToEditor(*k),
            },
        },
    }
}

/// What one update step asks of the surrounding loop: an action to
/// apply before the next external event is consumed, and whether the
/// task list changed and must be written back to storage.
pub struct Outcome {
    pub follow_up: Option<Action>,
    pub persist: bool,
}

/// The whole application state threaded through `update`.
pub struct App {
    pub mode: Mode,
    pub items: Vec<TaskItem>,
    pub nav: TaskList,
    pub editor: Editor,
    pub should_quit: bool,
}

impl App {
    /// Well-formedness: the selection is an index into the task list,
    /// absent when the list is empty, and the editor is well formed.
    pub open spec fn wf(&self) -> bool {
        &&& (match self.nav.selected {
            Some(i) => i < self.items@.len(),
            None => true,
        })
        &&& (self.items@.len() == 0 ==> self.nav.selected is None)
        &&& self.editor.wf()
    }

    /// The initial state over a loaded task list: normal mode, nothing
    /// selected, an empty buffer, not quitting.
    pub fn new(items: Vec<TaskItem>) -> (r: Self)
        ensures
            r.mode is Normal,
            r.items == items,
            r.nav.selected is None,
            r.editor@ == empty_editor(),
            !r.should_quit,
            r.wf(),
    {
        App { mode: Mode::Normal, items, nav: TaskList::new(), editor: Editor::new(), should_quit: false }
    }
}

/// Applies one action to the state.
///
/// Every branch is a guarded total step: navigation on an empty list
/// and a toggle without a selection are no-ops, switching to Edit
/// without a selection is rejected, and submits fall back to a plain
/// cancel when nothing is selected.
pub fn update(app: &mut App, action: Action) -> (fx: Outcome)
    requires
        old(app).wf(),
        old(app).editor.value@.len() < usize::MAX,
    ensures
        final(app).wf(),
        fx.follow_up is None,
        match action {
            Action::Tick | Action::Render | Action::NoOp => *final(app) == *old(app)
                && !fx.persist,
            Action::Quit => final(app).should_quit && final(app).mode == old(app).mode
                && final(app).items == old(app).items && final(app).nav == old(app).nav
                && final(app).editor == old(app).editor && !fx.persist,
            Action::NextTask => final(app).nav.selected == next_selected(
                old(app).nav.selected,
                (old(app).items@.len() as usize),
            ) && final(app).mode == old(app).mode && final(app).items == old(app).items
                && final(app).editor == old(app).editor && final(app).should_quit == old(app).should_quit && !fx.persist,
            Action::PreviousTask => final(app).nav.selected == previous_selected(
                old(app).nav.selected,
                (old(app).items@.len() as usize),
            ) && final(app).mode == old(app).mode && final(app).items == old(app).items
                && final(app).editor == old(app).editor && final(app).should_quit == old(app).should_quit && !fx.persist,
            Action::ToggleTask => match old(app).nav.selected {
                Some(i) => final(app).items.deep_view() == old(app).items.deep_view().update(
                    i as int,
                    toggled(old(app).items.deep_view()[i as int]),
                ) && final(app).mode == old(app).mode && final(app).nav == old(app).nav
                    && final(app).editor == old(app).editor && final(app).should_quit == old(app).should_quit && fx.persist,
                None => *final(app) == *old(app) && !fx.persist,
            },
            Action::SwitchMode(m) => if m is Edit && old(app).nav.selected is None {
                *final(app) == *old(app) && !fx.persist
            } else {
                final(app).mode == m && final(app).items == old(app).items && final(app).nav
                    == old(app).nav && final(app).editor == old(app).editor && final(app).should_quit == old(app).should_quit && !fx.persist
            },
            Action::ClearBuffer => final(app).mode is Normal && final(app).editor@
                == empty_editor() && final(app).items == old(app).items && final(app).nav == old(app).nav && final(app).should_quit == old(app).should_quit && !fx.persist,
            Action::SubmitCreate => final(app).items.deep_view() == old(app).items.deep_view().push(
                TaskModel { text: old(app).editor@.text, state: TaskState::Open },
            ) && final(app).mode is Normal && final(app).editor@ == empty_editor() && final(app).nav == old(app).nav && final(app).should_quit == old(app).should_quit && fx.persist,
            Action::SubmitEdit => (match old(app).nav.selected {
                Some(i) => final(app).items.deep_view() == old(app).items.deep_view().update(
                    i as int,
                    TaskModel {
                        text: old(app).editor@.text,
                        state: old(app).items.deep_view()[i as int].state,
                    },
                ) && fx.persist,
                None => final(app).items == old(app).items && !fx.persist,
            }) && final(app).mode is Normal && final(app).editor@ == empty_editor() && final(app).nav == old(app).nav && final(app).should_quit == old(app).should_quit,
            Action::ForwardKeyToEditor(k) => final(app).editor@ == edited(old(app).editor@, k)
                && final(app).mode == old(app).mode && final(app).items == old(app).items
                && final(app).nav == old(app).nav && final(app).should_quit == old(app).should_quit && !fx.persist,
        },
{
    match action {
        Action::Tick => Outcome { follow_up: None, persist: false },
        Action::Render => Outcome { follow_up: None, persist: false },
        Action::NoOp => Outcome { follow_up: None, persist: false },
        Action::Quit => {
            app.should_quit = true;
            Outcome { follow_up: None, persist: false }
        },
        Action::NextTask => {
            let length = app.items.len();
            app.nav.next(length);
            Outcome { follow_up: None, persist: false }
        },
        Action::PreviousTask => {
            let length = app.items.len();
            app.nav.previous(length);
            Outcome { follow_up: None, persist: false }
        },
        Action::ToggleTask => {
            match app.nav.selected {
                Some(index) => {
                    if index < app.items.len() {
                        let ghost before = app.items.deep_view();
                        app.items[index].toggle_state();
                        proof {
                            assert(app.items.deep_view() =~= before.update(
                                index as int,
                                toggled(before[index as int]),
                            ));
                        }
                        Outcome { follow_up: None, persist: true }
                    } else {
                        Outcome { follow_up: None, persist: false }
                    }
                },
                None => Outcome { follow_up: None, persist: false },
            }
        },
        Action::SwitchMode(m) => {
            let blocked = match m {
                Mode::Edit => app.nav.selected.is_none(),
                _ => false,
            };
            if !blocked {
                app.mode = m;
            }
            Outcome { follow_up: None, persist: false }
        },
        Action::ClearBuffer => {
            app.editor.reset();
            app.mode = Mode::Normal;
            Outcome { follow_up: None, persist: false }
        },
        Action::SubmitCreate => {
            let text = app.editor.value_str();
            let ghost before = app.items.deep_view();
            let item = TaskItem::new(text, TaskState::Open);
            app.items.push(item);
            proof {
                assert(app.items.deep_view() =~= before.push(item@));
            }
            app.editor.reset();
            app.mode = Mode::Normal;
            Outcome { follow_up: None, persist: true }
        },
        Action::SubmitEdit => {
            let persist = match app.nav.selected {
                Some(index) => {
                    if index < app.items.len() {
                        let text = app.editor.value_str();
                        let ghost before = app.items.deep_view();
                        app.items[index].text = text;
                        proof {
                            assert(app.items.deep_view() =~= before.update(
                                index as int,
                                TaskModel {
                                    text: old(app).editor@.text,
                                    state: before[index as int].state,
                                },
                            ));
                        }
                        true
                    } else {
                        false
                    }
                },
                None => false,
            };
            app.editor.reset();
            app.mode = Mode::Normal;
            Outcome { follow_up: None, persist }
        },
        Action::ForwardKeyToEditor(k) => {
            app.editor.apply_key(&k);
            Outcome { follow_up: None, persist: false }
        },
    }
}

} // verus!
