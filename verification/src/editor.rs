//! Single-line text sub-editor: an editable character buffer with a
//! cursor and a computed horizontal scroll offset. It backs the
//! Create and Edit modes and is cleared on every mode exit.

use vstd::prelude::*;

verus! {

/// A keyboard key, reduced to what the dispatcher and the sub-editor
/// care about. Anything else arrives as `Other`.
#[derive(Clone, Copy, Debug, PartialEq, Eq)]
pub enum Key {
    Char(char),
    Enter,
    Esc,
    Backspace,
    Delete,
    Left,
    Right,
    Home,
    End,
    Other,
}

/// Mathematical model of the sub-editor: the buffer text and the
/// cursor position within it.
#[verifier::ext_equal]
pub struct EditorModel {
    pub text: Seq<char>,
    pub cursor: nat,
}

/// The model of a cleared buffer: no text, cursor at the start.
pub open spec fn empty_editor() -> EditorModel {
    EditorModel { text: Seq::empty(), cursor: 0 }
}

/// The model after one key is applied to the buffer: printable keys
/// insert at the cursor, editing keys move or delete, and keys the
/// editor does not understand leave it untouched.
pub open spec fn edited(e: EditorModel, k: Key) -> EditorModel {
    match k {
        Key::Char(c) => EditorModel { text: e.text.insert(e.cursor as int, c), cursor: e.cursor + 1 },
        Key::Backspace => if e.cursor > 0 {
            EditorModel { text: e.text.remove(e.cursor - 1), cursor: (e.cursor - 1) as nat }
        } else {
            e
        },
        Key::Delete => if e.cursor < e.text.len() {
            EditorModel { text: e.text.remove(e.cursor as int), cursor: e.cursor }
        } else {
            e
        },
        Key::Left => if e.cursor > 0 {
            EditorModel { text: e.text, cursor: (e.cursor - 1) as nat }
        } else {
            e
        },
        Key::Right => if e.cursor < e.text.len() {
            EditorModel { text: e.text, cursor: e.cursor + 1 }
        } else {
            e
        },
        Key::Home => EditorModel { text: e.text, cursor: 0 },
        Key::End => EditorModel { text: e.text, cursor: e.text.len() },
        _ => e,
    }
}

/// The horizontal scroll offset that keeps a cursor visible in a
/// window of the given width.
pub open spec fn scroll_of(cursor: nat, width: nat) -> nat {
    if width == 0 {
        0
    } else if cursor < width {
        0
    } else {
        (cursor + 1 - width) as nat
    }
}

/// The single-line text sub-editor.
#[derive(Clone, Debug, PartialEq, Eq)]
pub struct Editor {
    pub value: Vec<char>,
    pub cursor: usize,
}

impl View for Editor {
    type V = EditorModel;

    open spec fn view(&self) -> EditorModel {
        EditorModel { text: self.value@, cursor: self.cursor as nat }
    }
}

impl Editor {
    /// Well-formedness: the cursor sits inside or just past the buffer.
    pub open spec fn wf(&self) -> bool {
        self.cursor <= self.value@.len()
    }

    /// An empty buffer with the cursor at the start.
    pub fn new() -> (r: Self)
        ensures
            r@ == empty_editor(),
            r.wf(),
    {
        Editor { value: Vec::new(), cursor: 0 }
    }

    /// Clears the buffer and puts the cursor back at the start.
    pub fn reset(&mut self)
        ensures
            final(self)@ == empty_editor(),
            final(self).wf(),
    {
        self.value = Vec::new();
        self.cursor = 0;
    }

    /// Applies one key to the buffer.
    pub fn apply_key(&mut self, key: &Key)
        requires
            old(self).wf(),
            old(self).value@.len() < usize::MAX,
        ensures
            final(self)@ == edited(old(self)@, *key),
            final(self).wf(),
    {
        match key {
            Key::Char(c) => {
                self.value.insert(self.cursor, *c);
                self.cursor = self.cursor + 1;
            },
            Key::Backspace => {
                if self.cursor > 0 {
                    self.value.remove(self.cursor - 1);
                    self.cursor = self.cursor - 1;
                }
            },
            Key::Delete => {
                if self.cursor < self.value.len() {
                    self.value.remove(self.cursor);
                }
            },
            Key::Left => {
                if self.cursor > 0 {
                    self.cursor = self.cursor - 1;
                }
            },
            Key::Right => {
                if self.cursor < self.value.len() {
                    self.cursor = self.cursor + 1;
                }
            },
            Key::Home => {
                self.cursor = 0;
            },
            Key::End => {
                self.cursor = self.value.len();
            },
            _ => {},
        }
    }

    /// The buffer's contents as a `String`.
    pub fn value_str(&self) -> (r: String)
        ensures
            r@ == self.value@,
    {
        let mut r = String::new();
        let mut k: usize = 0;
        while k < self.value.len()
            invariant
                k <= self.value.len(),
                r@ == self.value@.take(k as int),
            decreases self.value.len() - k,
        {
            push_char(&mut r, self.value[k]);
            k += 1;
            proof {
                assert(r@ =~= self.value@.take(k as int));
            }
        }
        proof {
            assert(self.value@.take(self.value.len() as int) =~= self.value@);
        }
        r
    }

    /// The scroll offset that keeps the cursor visible in a window of
    /// the given width.
    pub fn scroll(&self, width: usize) -> (r: usize)
        requires
            self.wf(),
        ensures
            r as nat == scroll_of(self.cursor as nat, width as nat),
            width > 0 ==> r <= self.cursor < r + width,
    {
        if width == 0 {
            0
        } else if self.cursor < width {
            0
        } else {
            self.cursor - width + 1
        }
    }
}

/// Relies on `String::push`: appends the given character to the end of
/// the string.
#[verifier::external_body]
fn push_char(s: &mut String, c: char)
    ensures
        final(s)@ == old(s)@.push(c),
{
    s.push(c);
}

} // verus!
