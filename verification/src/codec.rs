//! Line-oriented persistence codec for the task list.
//!
//! Each task becomes one line `- [<marker>] <text>`, where the marker is
//! `x` for a done task and a space for an open one. Decoding degrades
//! per line: a line shorter than four characters, or one without a
//! `"] "` separator, is silently skipped, never an error.

use vstd::prelude::*;
use crate::task_item::{TaskItem, TaskModel, TaskState};

verus! {

/// The marker character that encodes a completion state.
pub open spec fn state_char(s: TaskState) -> char {
    match s {
        TaskState::Done => 'x',
        TaskState::Open => ' ',
    }
}

/// The encoded line for one task: `- [<marker>] <text>`.
pub open spec fn encode_line_spec(t: TaskModel) -> Seq<char> {
    seq!['-', ' ', '[', state_char(t.state), ']', ' '] + t.text
}

/// The encoded lines for a whole task list, one per task, in order.
pub open spec fn encode_spec(tasks: Seq<TaskModel>) -> Seq<Seq<char>> {
    tasks.map_values(|t: TaskModel| encode_line_spec(t))
}

/// Position of the first `"] "` separator at or after `from`, if any.
pub open spec fn find_sep(line: Seq<char>, from: int) -> Option<int>
    decreases line.len() - from,
{
    if from < 0 || from + 1 >= line.len() {
        None
    } else if line[from] == ']' && line[from + 1] == ' ' {
        Some(from)
    } else {
        find_sep(line, from + 1)
    }
}

/// The completion state a line's marker character stands for: the
/// character at index 3, `x` for done, anything else for open.
pub open spec fn decode_marker(line: Seq<char>) -> TaskState {
    if line[3] == 'x' {
        TaskState::Done
    } else {
        TaskState::Open
    }
}

/// What one persisted line decodes to; `None` means the line is skipped.
/// The completion marker is the character at index 3; the text is
/// everything after the first `"] "` separator.
pub open spec fn decode_line_spec(line: Seq<char>) -> Option<TaskModel> {
    if line.len() < 4 {
        None
    } else {
        match find_sep(line, 0) {
            Some(i) => Some(
                TaskModel { text: line.subrange(i + 2, line.len() as int), state: decode_marker(line) },
            ),
            None => None,
        }
    }
}

/// The tasks a whole file's lines decode to, skipped lines left out.
pub open spec fn decode_spec(lines: Seq<Seq<char>>) -> Seq<TaskModel>
    decreases lines.len(),
{
    if lines.len() == 0 {
        Seq::empty()
    } else {
        decode_spec(lines.drop_last()) + (match decode_line_spec(lines.last()) {
            Some(t) => seq![t],
            None => Seq::empty(),
        })
    }
}

/// The one-character string for a completion state: `"x"` or `" "`.
pub fn get_state_char(state: &TaskState) -> (r: String)
    ensures
        r@ == seq![state_char(*state)],
{
    match state {
        TaskState::Done => {
            let r = String::from_str("x");
            proof {
                reveal_strlit("x");
                assert(r@ =~= seq![state_char(TaskState::Done)]);
            }
            r
        },
        TaskState::Open => {
            let r = String::from_str(" ");
            proof {
                reveal_strlit(" ");
                assert(r@ =~= seq![state_char(TaskState::Open)]);
            }
            r
        },
    }
}

/// Encodes one task as its persisted line.
pub fn encode_line(task: &TaskItem) -> (r: String)
    ensures
        r@ == encode_line_spec(task@),
{
    let mut line = String::from_str("- [");
    let marker = get_state_char(&task.state);
    line.append(marker.as_str());
    line.append("] ");
    line.append(task.text.as_str());
    proof {
        reveal_strlit("- [");
        reveal_strlit("] ");
        assert(line@ =~= encode_line_spec(task@));
    }
    line
}

/// Encodes a whole task list, one line per task, in order.
pub fn encode(tasks: &Vec<TaskItem>) -> (r: Vec<String>)
    ensures
        r.deep_view() == encode_spec(tasks.deep_view()),
{
    let mut lines: Vec<String> = Vec::new();
    let mut k: usize = 0;
    while k < tasks.len()
        invariant
            k <= tasks.len(),
            lines@.len() == k,
            forall|j: int|
                0 <= j < k ==> #[trigger] lines@[j]@ == encode_line_spec(tasks.deep_view()[j]),
        decreases tasks.len() - k,
    {
        let line = encode_line(&tasks[k]);
        lines.push(line);
        k += 1;
    }
    proof {
        let ghost tdv = tasks.deep_view();
        assert forall|j: int| 0 <= j < tdv.len() implies #[trigger] lines.deep_view()[j]
            == encode_spec(tdv)[j] by {
            assert(lines@[j]@ == encode_line_spec(tdv[j]));
        }
        assert(lines.deep_view() =~= encode_spec(tdv));
    }
    lines
}

/// Decodes one persisted line, skipping malformed input.
pub fn decode_line(line: &str) -> (r: Option<TaskItem>)
    ensures
        r.deep_view() == decode_line_spec(line@),
{
    let n = line.unicode_len();
    if n < 4 {
        return None;
    }
    let state = if line.get_char(3) == 'x' {
        TaskState::Done
    } else {
        TaskState::Open
    };
    let mut i: usize = 0;
    loop
        invariant
            i + 1 <= n,
            4 <= n,
            n == line@.len(),
            state == decode_marker(line@),
            find_sep(line@, 0) == find_sep(line@, i as int),
        decreases n - i,
    {
        if i + 1 >= n {
            proof {
                assert(find_sep(line@, i as int) is None);
            }
            return None;
        }
        if line.get_char(i) == ']' && line.get_char(i + 1) == ' ' {
            proof {
                assert(find_sep(line@, i as int) == Some(i as int));
            }
            let text = line.substring_char(i + 2, n);
            let item = TaskItem::new(String::from_str(text), state);
            return Some(item);
        }
        proof {
            assert(find_sep(line@, i as int) == find_sep(line@, i as int + 1));
        }
        i += 1;
    }
}

/// Decodes a whole file's lines, silently skipping malformed ones.
pub fn decode(lines: &Vec<String>) -> (r: Vec<TaskItem>)
    ensures
        r.deep_view() == decode_spec(lines.deep_view()),
{
    let mut items: Vec<TaskItem> = Vec::new();
    let mut k: usize = 0;
    while k < lines.len()
        invariant
            k <= lines.len(),
            items.deep_view() == decode_spec(lines.deep_view().take(k as int)),
        decreases lines.len() - k,
    {
        let decoded = decode_line(lines[k].as_str());
        match decoded {
            Some(item) => items.push(item),
            None => {},
        }
        k += 1;
        proof {
            let pre = lines.deep_view().take(k as int);
            assert(pre.drop_last() =~= lines.deep_view().take(k as int - 1));
            assert(pre.last() == lines.deep_view()[k as int - 1]);
            assert(items.deep_view() =~= decode_spec(pre));
        }
    }
    proof {
        assert(lines.deep_view().take(lines.len() as int) =~= lines.deep_view());
    }
    items
}

/// A task text the codec can round-trip: free of newlines and of the
/// `"] "` separator sequence.
pub open spec fn text_encodable(text: Seq<char>) -> bool {
    &&& forall|i: int| 0 <= i < text.len() ==> #[trigger] text[i] != '\n'
    &&& forall|i: int| 0 <= i && i + 1 < text.len() ==> !(#[trigger] text[i] == ']' && text[i + 1] == ' ')
}

/// One encoded line decodes back to the very task it came from.
pub proof fn lemma_round_trip_line(t: TaskModel)
    requires
        text_encodable(t.text),
    ensures
        decode_line_spec(encode_line_spec(t)) == Some(t),
{
    let enc = encode_line_spec(t);
    assert(enc.len() == 6 + t.text.len());
    assert(enc[0] == '-' && enc[1] == ' ' && enc[2] == '[');
    assert(enc[3] == state_char(t.state));
    assert(enc[4] == ']' && enc[5] == ' ');
    assert(find_sep(enc, 0) == find_sep(enc, 1));
    assert(find_sep(enc, 1) == find_sep(enc, 2));
    assert(find_sep(enc, 2) == find_sep(enc, 3));
    assert(find_sep(enc, 3) == find_sep(enc, 4));
    assert(find_sep(enc, 4) == Some(4int));
    assert(enc.subrange(6, enc.len() as int) =~= t.text);
    assert(decode_line_spec(enc) == Some(t));
}

/// Round trip: decoding an encoded task list yields the original list,
/// provided every text is free of newlines and of the `"] "` sequence.
pub proof fn lemma_round_trip(tasks: Seq<TaskModel>)
    requires
        forall|i: int| 0 <= i < tasks.len() ==> #[trigger] text_encodable(tasks[i].text),
    ensures
        decode_spec(encode_spec(tasks)) == tasks,
    decreases tasks.len(),
{
    let enc = encode_spec(tasks);
    if tasks.len() == 0 {
        assert(decode_spec(enc) =~= tasks);
    } else {
        let front = tasks.drop_last();
        assert(forall|i: int| 0 <= i < front.len() ==> #[trigger] text_encodable(front[i].text));
        lemma_round_trip(front);
        lemma_round_trip_line(tasks.last());
        assert(enc.drop_last() =~~= encode_spec(front));
        assert(enc.last() == encode_line_spec(tasks.last()));
        assert(decode_spec(enc) == decode_spec(enc.drop_last()) + seq![tasks.last()]);
        assert(decode_spec(enc) =~= tasks);
    }
}

} // verus!
