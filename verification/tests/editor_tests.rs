use todolist::editor::{Editor, Key};

fn editor_with(text: &str) -> Editor {
    let mut ed = Editor::new();
    for c in text.chars() {
        ed.apply_key(&Key::Char(c));
    }
    ed
}

#[test]
fn starts_empty() {
    let ed = Editor::new();
    assert_eq!(ed.value_str(), "");
    assert_eq!(ed.cursor, 0);
}

#[test]
fn typing_builds_the_value() {
    let ed = editor_with("ab");
    assert_eq!(ed.value_str(), "ab");
    assert_eq!(ed.cursor, 2);
}

#[test]
fn insert_in_the_middle() {
    let mut ed = editor_with("ac");
    ed.apply_key(&Key::Left);
    ed.apply_key(&Key::Char('b'));
    assert_eq!(ed.value_str(), "abc");
    assert_eq!(ed.cursor, 2);
}

#[test]
fn backspace_removes_before_cursor() {
    let mut ed = editor_with("ab");
    ed.apply_key(&Key::Backspace);
    assert_eq!(ed.value_str(), "a");
    assert_eq!(ed.cursor, 1);
}

#[test]
fn backspace_at_start_is_a_no_op() {
    let mut ed = editor_with("ab");
    ed.apply_key(&Key::Home);
    ed.apply_key(&Key::Backspace);
    assert_eq!(ed.value_str(), "ab");
    assert_eq!(ed.cursor, 0);
}

#[test]
fn delete_removes_at_cursor() {
    let mut ed = editor_with("ab");
    ed.apply_key(&Key::Home);
    ed.apply_key(&Key::Delete);
    assert_eq!(ed.value_str(), "b");
    assert_eq!(ed.cursor, 0);
}

#[test]
fn delete_at_end_is_a_no_op() {
    let mut ed = editor_with("ab");
    ed.apply_key(&Key::Delete);
    assert_eq!(ed.value_str(), "ab");
}

#[test]
fn cursor_motion_is_clamped() {
    let mut ed = editor_with("ab");
    ed.apply_key(&Key::Right);
    assert_eq!(ed.cursor, 2);
    ed.apply_key(&Key::Home);
    ed.apply_key(&Key::Left);
    assert_eq!(ed.cursor, 0);
    ed.apply_key(&Key::End);
    assert_eq!(ed.cursor, 2);
}

#[test]
fn unknown_keys_leave_the_buffer_alone() {
    let mut ed = editor_with("ab");
    ed.apply_key(&Key::Other);
    ed.apply_key(&Key::Enter);
    ed.apply_key(&Key::Esc);
    assert_eq!(ed.value_str(), "ab");
    assert_eq!(ed.cursor, 2);
}

#[test]
fn reset_clears_value_and_cursor() {
    let mut ed = editor_with("ab");
    ed.reset();
    assert_eq!(ed.value_str(), "");
    assert_eq!(ed.cursor, 0);
}

#[test]
fn scroll_keeps_cursor_visible() {
    let mut ed = editor_with("0123456789");
    assert_eq!(ed.cursor, 10);
    assert_eq!(ed.scroll(5), 6);
    ed.apply_key(&Key::Home);
    assert_eq!(ed.scroll(5), 0);
    assert_eq!(editor_with("abc").scroll(5), 0);
}
