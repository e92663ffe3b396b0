use todolist::app::{get_action, update, Action, App, Event, Mode};
use todolist::editor::Key;
use todolist::task_item::{TaskItem, TaskState};

fn three_tasks() -> Vec<TaskItem> {
    vec![
        TaskItem::new("one".to_string(), TaskState::Open),
        TaskItem::new("two".to_string(), TaskState::Open),
        TaskItem::new("three".to_string(), TaskState::Done),
    ]
}

fn type_text(app: &mut App, text: &str) {
    for c in text.chars() {
        update(app, Action::ForwardKeyToEditor(Key::Char(c)));
    }
}

#[test]
fn next_task_on_empty_list_keeps_no_selection() {
    let mut app = App::new(vec![]);
    let fx = update(&mut app, Action::NextTask);
    assert_eq!(app.nav.selected, None);
    assert!(!fx.persist);
    assert!(fx.follow_up.is_none());
}

#[test]
fn k_in_normal_mode_wraps_selection_to_last() {
    let mut app = App::new(three_tasks());
    app.nav.selected = Some(0);
    let action = get_action(&app.mode, &Event::Key(Key::Char('k')));
    assert_eq!(action, Action::PreviousTask);
    update(&mut app, action);
    assert_eq!(app.nav.selected, Some(2));
}

#[test]
fn j_in_normal_mode_moves_selection_down() {
    let mut app = App::new(three_tasks());
    update(&mut app, Action::NextTask);
    assert_eq!(app.nav.selected, Some(0));
    update(&mut app, Action::NextTask);
    assert_eq!(app.nav.selected, Some(1));
}

#[test]
fn submit_in_create_mode_appends_open_task() {
    let mut app = App::new(vec![]);
    update(&mut app, Action::SwitchMode(Mode::Create));
    assert_eq!(app.mode, Mode::Create);
    type_text(&mut app, "new task");
    let fx = update(&mut app, Action::SubmitCreate);
    assert_eq!(app.items.len(), 1);
    assert_eq!(app.items[0].text, "new task");
    assert_eq!(app.items[0].state, TaskState::Open);
    assert_eq!(app.mode, Mode::Normal);
    assert_eq!(app.editor.value_str(), "");
    assert!(fx.persist);
}

#[test]
fn switch_to_edit_without_selection_is_rejected() {
    let mut app = App::new(three_tasks());
    assert_eq!(app.nav.selected, None);
    let fx = update(&mut app, Action::SwitchMode(Mode::Edit));
    assert_eq!(app.mode, Mode::Normal);
    assert!(!fx.persist);
}

#[test]
fn switch_to_edit_with_selection_succeeds() {
    let mut app = App::new(three_tasks());
    app.nav.selected = Some(1);
    update(&mut app, Action::SwitchMode(Mode::Edit));
    assert_eq!(app.mode, Mode::Edit);
}

#[test]
fn toggle_flips_selected_task_and_asks_to_persist() {
    let mut app = App::new(three_tasks());
    app.nav.selected = Some(0);
    let fx = update(&mut app, Action::ToggleTask);
    assert_eq!(app.items[0].state, TaskState::Done);
    assert_eq!(app.items[1].state, TaskState::Open);
    assert!(fx.persist);
}

#[test]
fn toggle_twice_restores_the_task() {
    let mut app = App::new(three_tasks());
    app.nav.selected = Some(2);
    let before = app.items[2].clone();
    update(&mut app, Action::ToggleTask);
    assert_ne!(app.items[2], before);
    update(&mut app, Action::ToggleTask);
    assert_eq!(app.items[2], before);
}

#[test]
fn toggle_without_selection_is_a_no_op() {
    let mut app = App::new(three_tasks());
    let fx = update(&mut app, Action::ToggleTask);
    assert_eq!(app.items[0].state, TaskState::Open);
    assert!(!fx.persist);
}

#[test]
fn clear_buffer_cancels_back_to_normal() {
    let mut app = App::new(three_tasks());
    update(&mut app, Action::SwitchMode(Mode::Create));
    type_text(&mut app, "half typed");
    let fx = update(&mut app, Action::ClearBuffer);
    assert_eq!(app.mode, Mode::Normal);
    assert_eq!(app.editor.value_str(), "");
    assert_eq!(app.items.len(), 3);
    assert!(!fx.persist);
}

#[test]
fn submit_in_edit_mode_overwrites_selected_text() {
    let mut app = App::new(three_tasks());
    app.nav.selected = Some(1);
    update(&mut app, Action::SwitchMode(Mode::Edit));
    type_text(&mut app, "changed");
    let fx = update(&mut app, Action::SubmitEdit);
    assert_eq!(app.items[1].text, "changed");
    assert_eq!(app.items[1].state, TaskState::Open);
    assert_eq!(app.mode, Mode::Normal);
    assert_eq!(app.editor.value_str(), "");
    assert!(fx.persist);
}

#[test]
fn submit_edit_without_selection_only_cancels() {
    let mut app = App::new(three_tasks());
    update(&mut app, Action::SwitchMode(Mode::Create));
    type_text(&mut app, "text");
    let fx = update(&mut app, Action::SubmitEdit);
    assert_eq!(app.items[0].text, "one");
    assert_eq!(app.mode, Mode::Normal);
    assert!(!fx.persist);
}

#[test]
fn quit_sets_the_flag() {
    let mut app = App::new(vec![]);
    assert!(!app.should_quit);
    update(&mut app, Action::Quit);
    assert!(app.should_quit);
}

#[test]
fn normal_mode_key_table() {
    let m = Mode::Normal;
    assert_eq!(get_action(&m, &Event::Key(Key::Char('j'))), Action::NextTask);
    assert_eq!(get_action(&m, &Event::Key(Key::Char('k'))), Action::PreviousTask);
    assert_eq!(get_action(&m, &Event::Key(Key::Char(' '))), Action::ToggleTask);
    assert_eq!(get_action(&m, &Event::Key(Key::Char('q'))), Action::Quit);
    assert_eq!(get_action(&m, &Event::Key(Key::Char('e'))), Action::SwitchMode(Mode::Edit));
    assert_eq!(get_action(&m, &Event::Key(Key::Enter)), Action::SwitchMode(Mode::Create));
    assert_eq!(get_action(&m, &Event::Key(Key::Char('z'))), Action::NoOp);
    assert_eq!(get_action(&m, &Event::Key(Key::Esc)), Action::NoOp);
}

#[test]
fn create_and_edit_mode_key_tables() {
    assert_eq!(get_action(&Mode::Create, &Event::Key(Key::Esc)), Action::ClearBuffer);
    assert_eq!(get_action(&Mode::Create, &Event::Key(Key::Enter)), Action::SubmitCreate);
    assert_eq!(
        get_action(&Mode::Create, &Event::Key(Key::Char('q'))),
        Action::ForwardKeyToEditor(Key::Char('q'))
    );
    assert_eq!(get_action(&Mode::Edit, &Event::Key(Key::Esc)), Action::ClearBuffer);
    assert_eq!(get_action(&Mode::Edit, &Event::Key(Key::Enter)), Action::SubmitEdit);
    assert_eq!(
        get_action(&Mode::Edit, &Event::Key(Key::Backspace)),
        Action::ForwardKeyToEditor(Key::Backspace)
    );
}

#[test]
fn tick_and_render_resolve_in_any_mode() {
    for m in [Mode::Normal, Mode::Create, Mode::Edit] {
        assert_eq!(get_action(&m, &Event::Tick), Action::Tick);
        assert_eq!(get_action(&m, &Event::Render), Action::Render);
    }
}

#[test]
fn tick_render_noop_change_nothing() {
    let mut app = App::new(three_tasks());
    app.nav.selected = Some(1);
    for a in [Action::Tick, Action::Render, Action::NoOp] {
        let fx = update(&mut app, a);
        assert_eq!(app.items.len(), 3);
        assert_eq!(app.nav.selected, Some(1));
        assert_eq!(app.mode, Mode::Normal);
        assert!(!fx.persist);
        assert!(fx.follow_up.is_none());
    }
}
