//! The task data type: a line of text together with a completion state.

use vstd::prelude::*;

verus! {

/// Completion state of a single task: still open, or done.
#[derive(Clone, Copy, Debug, PartialEq, Eq)]
pub enum TaskState {
    Done,
    Open,
}

/// The opposite of a completion state.
pub open spec fn flipped(s: TaskState) -> TaskState {
    match s {
        TaskState::Open => TaskState::Done,
        TaskState::Done => TaskState::Open,
    }
}

/// Mathematical model of a task: its text as a sequence of characters
/// together with its completion state.
#[verifier::ext_equal]
pub struct TaskModel {
    pub text: Seq<char>,
    pub state: TaskState,
}

/// The model of a task after one toggle: same text, opposite state.
pub open spec fn toggled(t: TaskModel) -> TaskModel {
    TaskModel { text: t.text, state: flipped(t.state) }
}

/// One checkbox-style task.
#[derive(Clone, Debug, PartialEq, Eq)]
pub struct TaskItem {
    pub state: TaskState,
    pub text: String,
}

impl View for TaskItem {
    type V = TaskModel;

    open spec fn view(&self) -> TaskModel {
        TaskModel { text: self.text@, state: self.state }
    }
}

impl DeepView for TaskItem {
    type V = TaskModel;

    open spec fn deep_view(&self) -> TaskModel {
        self@
    }
}

impl TaskItem {
    pub fn new(text: String, state: TaskState) -> (r: Self)
        ensures
            r@ == (TaskModel { text: text@, state: state }),
    {
        Self { text, state }
    }

    /// Flips the completion state in place; the text is untouched.
    pub fn toggle_state(&mut self)
        ensures
            final(self)@ == toggled(old(self)@),
    {
        self.state = match self.state {
            TaskState::Open => TaskState::Done,
            TaskState::Done => TaskState::Open,
        }
    }
}

/// Toggling the same task twice restores its original state.
pub proof fn lemma_toggle_twice(t: TaskModel)
    ensures
        toggled(toggled(t)) == t,
{
}

} // verus!
