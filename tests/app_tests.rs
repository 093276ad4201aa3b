use todui::{
    handle_input, handle_input_at, App, Effect, Filter, InputMode, Key, MessageKind, Priority,
    Timestamp,
};

fn at(secs: i64) -> Timestamp {
    Timestamp { secs, nanos: 0 }
}

fn app_with(names: &[&str]) -> App {
    let mut app = App::new(Vec::new());
    for (k, name) in names.iter().enumerate() {
        assert!(app.add_todo_at(name.to_string(), at(k as i64)));
    }
    app
}

fn type_text(app: &mut App, text: &str) {
    for c in text.chars() {
        assert_eq!(handle_input_at(app, Key::Char(c), at(0)), Effect::Nothing);
    }
}

#[test]
fn new_session_starts_in_normal_mode() {
    let app = App::new(Vec::new());
    assert_eq!(app.input_mode, InputMode::Normal);
    assert_eq!(app.filter, Filter::All);
    assert_eq!(app.selected_index, None);
    assert!(app.message.is_none());
    assert!(app.message_timeout.is_none());
    assert_eq!(app.input, "");
}

#[test]
fn scenario_add_toggle_and_view_completed() {
    let mut app = App::new(Vec::new());
    assert!(app.add_todo("Buy milk".to_string()));
    assert_eq!(app.todos.len(), 1);
    assert!(!app.todos[0].completed);
    let (text, kind) = app.message.clone().unwrap();
    assert_eq!(text, "Todo added successfully!");
    assert_eq!(kind, MessageKind::Success);
    app.move_selection(1);
    assert_eq!(app.selected_index, Some(0));
    assert!(app.toggle_todo());
    assert!(app.todos[0].completed);
    assert!(app.todos[0].completed_at.is_some());
    app.cycle_filter();
    app.cycle_filter();
    assert_eq!(app.filter, Filter::Completed);
    let view = app.filtered_todos();
    assert_eq!(view.len(), 1);
    assert_eq!(view[0].description, "Buy milk");
    assert_eq!(app.selected_index, None);
    app.move_selection(1);
    assert_eq!(app.selected_index, Some(0));
}

#[test]
fn scenario_high_priority_view_holds_second_task() {
    let mut app = app_with(&["one", "two", "three"]);
    app.move_selection(1);
    app.move_selection(1);
    assert_eq!(app.selected_index, Some(1));
    assert!(app.toggle_priority_at(at(50)));
    assert_eq!(app.todos[1].priority, Priority::High);
    let (text, kind) = app.message.clone().unwrap();
    assert_eq!(text, "Priority updated!");
    assert_eq!(kind, MessageKind::Info);
    for _ in 0..3 {
        app.cycle_filter();
    }
    assert_eq!(app.filter, Filter::HighPriority);
    let view = app.filtered_todos();
    assert_eq!(view.len(), 1);
    assert_eq!(view[0].id, 2);
    assert_eq!(view[0].description, "two");
}

#[test]
fn cursor_stays_within_view() {
    let mut app = app_with(&["a", "b", "c"]);
    for _ in 0..10 {
        app.move_selection(1);
        assert!(app.selected_index.unwrap() <= 2);
    }
    assert_eq!(app.selected_index, Some(2));
    for _ in 0..10 {
        app.move_selection(-1);
    }
    assert_eq!(app.selected_index, Some(0));
}

#[test]
fn cursor_absent_on_empty_view() {
    let mut app = App::new(Vec::new());
    app.move_selection(1);
    assert_eq!(app.selected_index, None);
    app.move_selection(-1);
    assert_eq!(app.selected_index, None);
    let mut app = app_with(&["a"]);
    app.cycle_filter();
    app.cycle_filter();
    app.move_selection(1);
    assert_eq!(app.selected_index, None);
}

#[test]
fn retreat_from_absent_selects_first() {
    let mut app = app_with(&["a", "b"]);
    app.move_selection(-1);
    assert_eq!(app.selected_index, Some(0));
}

#[test]
fn filter_change_clears_cursor() {
    let mut app = app_with(&["a", "b"]);
    app.move_selection(1);
    app.move_selection(1);
    assert_eq!(app.selected_index, Some(1));
    app.cycle_filter();
    assert_eq!(app.selected_index, None);
    assert_eq!(app.filter, Filter::Active);
}

#[test]
fn delete_last_pulls_cursor_back() {
    let mut app = app_with(&["a", "b", "c"]);
    for _ in 0..3 {
        app.move_selection(1);
    }
    assert_eq!(app.selected_index, Some(2));
    assert!(app.delete_todo());
    assert_eq!(app.todos.len(), 2);
    assert_eq!(app.selected_index, Some(1));
    assert!(app.delete_todo());
    assert!(app.delete_todo());
    assert!(app.todos.is_empty());
    assert_eq!(app.selected_index, None);
    assert!(!app.delete_todo());
}

#[test]
fn delete_in_middle_keeps_cursor() {
    let mut app = app_with(&["a", "b", "c"]);
    app.move_selection(1);
    app.move_selection(1);
    assert!(app.delete_todo());
    assert_eq!(app.selected_index, Some(1));
    assert_eq!(app.get_selected_todo().unwrap().description, "c");
}

#[test]
fn cursor_maps_through_the_filtered_view() {
    let mut app = app_with(&["a", "b", "c"]);
    app.move_selection(1);
    assert!(app.toggle_todo_at(at(7)));
    app.cycle_filter();
    assert_eq!(app.filter, Filter::Active);
    app.move_selection(1);
    app.move_selection(1);
    assert_eq!(app.selected_store_index(), Some(2));
    assert!(app.toggle_priority_at(at(8)));
    assert_eq!(app.todos[2].priority, Priority::High);
    assert_eq!(app.todos[1].priority, Priority::Medium);
}

#[test]
fn toggle_out_of_view_rehomes_cursor() {
    let mut app = app_with(&["a", "b"]);
    app.cycle_filter();
    app.move_selection(1);
    app.move_selection(1);
    assert_eq!(app.selected_index, Some(1));
    assert!(app.toggle_todo_at(at(3)));
    assert_eq!(app.filtered_todos().len(), 1);
    assert_eq!(app.selected_index, Some(0));
}

#[test]
fn operations_without_cursor_do_nothing() {
    let mut app = app_with(&["a"]);
    app.message = None;
    app.message_timeout = None;
    assert!(!app.toggle_todo_at(at(1)));
    assert!(!app.toggle_priority_at(at(1)));
    assert!(!app.add_tags_at("x".to_string(), at(1)));
    assert!(!app.add_note_at("x".to_string(), at(1)));
    assert!(!app.delete_todo());
    assert!(!app.todos[0].completed);
    assert!(app.message.is_none());
    assert!(app.get_selected_todo().is_none());
}

#[test]
fn tags_through_the_cursor() {
    let mut app = app_with(&["a"]);
    app.move_selection(1);
    assert!(app.add_tags("work, , personal ,  ".to_string()));
    assert_eq!(app.todos[0].tags, vec!["work".to_string(), "personal".to_string()]);
    assert_eq!(app.message.clone().unwrap().0, "Tags updated!");
    assert!(app.add_note("call back".to_string()));
    assert_eq!(app.todos[0].notes, "call back");
    assert_eq!(app.message.clone().unwrap().0, "Note added!");
}

#[test]
fn notification_expires_after_three_seconds() {
    let mut app = App::new(Vec::new());
    app.show_message_at("hello", MessageKind::Info, Timestamp { secs: 100, nanos: 500 });
    assert_eq!(app.message_timeout, Some(Timestamp { secs: 103, nanos: 500 }));
    app.update_at(Timestamp { secs: 103, nanos: 499 });
    assert!(app.message.is_some());
    app.update_at(Timestamp { secs: 103, nanos: 500 });
    assert!(app.message.is_none());
    assert!(app.message_timeout.is_none());
    app.update_at(Timestamp { secs: 200, nanos: 0 });
    assert!(app.message.is_none());
}

#[test]
fn notification_from_clock_stays_until_expiry() {
    let mut app = App::new(Vec::new());
    app.show_message("saved", MessageKind::Success);
    app.update();
    assert_eq!(app.message.clone().unwrap().0, "saved");
}

#[test]
fn status_line_counts_whole_store() {
    let mut app = app_with(&["a", "b"]);
    app.move_selection(1);
    app.toggle_todo_at(at(1));
    app.cycle_filter();
    assert_eq!(
        app.get_status_line(),
        "Total: 2 | Completed: 1 | Pending: 1 | High Priority: 0 | Filter: Active"
    );
}

#[test]
fn keys_add_a_task() {
    let mut app = App::new(Vec::new());
    assert_eq!(handle_input_at(&mut app, Key::Char('a'), at(0)), Effect::Nothing);
    assert_eq!(app.input_mode, InputMode::AddingTodo);
    type_text(&mut app, "Buy milkk");
    assert_eq!(handle_input_at(&mut app, Key::Backspace, at(0)), Effect::Nothing);
    assert_eq!(app.input, "Buy milk");
    assert_eq!(handle_input_at(&mut app, Key::Enter, at(42)), Effect::Save);
    assert_eq!(app.input_mode, InputMode::Normal);
    assert_eq!(app.input, "");
    assert_eq!(app.todos.len(), 1);
    assert_eq!(app.todos[0].description, "Buy milk");
    assert_eq!(app.todos[0].created_at, at(42));
}

#[test]
fn blank_entry_stays_in_adding_mode() {
    let mut app = App::new(Vec::new());
    handle_input_at(&mut app, Key::Char('a'), at(0));
    type_text(&mut app, "  ");
    assert_eq!(handle_input_at(&mut app, Key::Enter, at(0)), Effect::Nothing);
    assert_eq!(app.input_mode, InputMode::AddingTodo);
    assert_eq!(app.input, "");
    assert!(app.todos.is_empty());
    assert_eq!(handle_input_at(&mut app, Key::Enter, at(0)), Effect::Nothing);
    assert_eq!(app.input_mode, InputMode::AddingTodo);
}

#[test]
fn backspace_on_empty_buffer_is_harmless() {
    let mut app = App::new(Vec::new());
    handle_input_at(&mut app, Key::Char('a'), at(0));
    assert_eq!(handle_input_at(&mut app, Key::Backspace, at(0)), Effect::Nothing);
    assert_eq!(app.input, "");
}

#[test]
fn escape_cancels_entry() {
    let mut app = App::new(Vec::new());
    handle_input_at(&mut app, Key::Char('a'), at(0));
    type_text(&mut app, "draft");
    assert_eq!(handle_input_at(&mut app, Key::Esc, at(0)), Effect::Nothing);
    assert_eq!(app.input_mode, InputMode::Normal);
    assert_eq!(app.input, "");
    assert!(app.todos.is_empty());
}

#[test]
fn keys_edit_tags_with_prefill() {
    let mut app = app_with(&["a"]);
    handle_input_at(&mut app, Key::Char('t'), at(0));
    assert_eq!(app.input_mode, InputMode::Normal);
    handle_input_at(&mut app, Key::Down, at(0));
    assert!(app.add_tags_at("x, y".to_string(), at(0)));
    handle_input_at(&mut app, Key::Char('t'), at(0));
    assert_eq!(app.input_mode, InputMode::AddingTags);
    assert_eq!(app.input, "x, y");
    type_text(&mut app, ", z");
    assert_eq!(handle_input_at(&mut app, Key::Enter, at(0)), Effect::Save);
    assert_eq!(app.input_mode, InputMode::Normal);
    assert_eq!(app.todos[0].tags, vec!["x", "y", "z"]);
}

#[test]
fn keys_clear_tags_and_notes() {
    let mut app = app_with(&["a"]);
    handle_input_at(&mut app, Key::Down, at(0));
    assert!(app.add_note_at("old note".to_string(), at(0)));
    handle_input_at(&mut app, Key::Char('n'), at(0));
    assert_eq!(app.input_mode, InputMode::AddingNote);
    assert_eq!(app.input, "old note");
    for _ in 0..8 {
        handle_input_at(&mut app, Key::Backspace, at(0));
    }
    assert_eq!(handle_input_at(&mut app, Key::Enter, at(0)), Effect::Save);
    assert_eq!(app.todos[0].notes, "");
    handle_input_at(&mut app, Key::Char('t'), at(0));
    assert_eq!(handle_input_at(&mut app, Key::Enter, at(0)), Effect::Save);
    assert!(app.todos[0].tags.is_empty());
}

#[test]
fn keys_toggle_delete_and_priority() {
    let mut app = app_with(&["a", "b"]);
    assert_eq!(handle_input_at(&mut app, Key::Char(' '), at(0)), Effect::Nothing);
    handle_input_at(&mut app, Key::Char('j'), at(0));
    assert_eq!(handle_input_at(&mut app, Key::Char(' '), at(9)), Effect::Save);
    assert_eq!(app.todos[0].completed_at, Some(at(9)));
    assert_eq!(handle_input_at(&mut app, Key::Char('p'), at(0)), Effect::Save);
    assert_eq!(app.todos[0].priority, Priority::High);
    handle_input_at(&mut app, Key::Char('j'), at(0));
    handle_input_at(&mut app, Key::Char('k'), at(0));
    handle_input_at(&mut app, Key::Up, at(0));
    assert_eq!(app.selected_index, Some(0));
    assert_eq!(handle_input_at(&mut app, Key::Char('d'), at(0)), Effect::Save);
    assert_eq!(app.todos.len(), 1);
    assert_eq!(app.todos[0].description, "b");
}

#[test]
fn tab_cycles_filter_and_clears_cursor() {
    let mut app = app_with(&["a"]);
    handle_input_at(&mut app, Key::Down, at(0));
    assert_eq!(handle_input_at(&mut app, Key::Tab, at(0)), Effect::Nothing);
    assert_eq!(app.filter, Filter::Active);
    assert_eq!(app.selected_index, None);
}

#[test]
fn help_mode_leaves_only_on_escape() {
    let mut app = app_with(&["a"]);
    assert_eq!(handle_input_at(&mut app, Key::Char('?'), at(0)), Effect::Nothing);
    assert_eq!(app.input_mode, InputMode::Help);
    assert_eq!(handle_input_at(&mut app, Key::Char('q'), at(0)), Effect::Nothing);
    assert_eq!(handle_input_at(&mut app, Key::Char('?'), at(0)), Effect::Nothing);
    assert_eq!(handle_input_at(&mut app, Key::Char('d'), at(0)), Effect::Nothing);
    assert_eq!(app.input_mode, InputMode::Help);
    assert_eq!(app.todos.len(), 1);
    assert_eq!(handle_input_at(&mut app, Key::Esc, at(0)), Effect::Nothing);
    assert_eq!(app.input_mode, InputMode::Normal);
}

#[test]
fn quit_only_from_normal_mode() {
    let mut app = App::new(Vec::new());
    assert_eq!(handle_input(&mut app, Key::Char('q')), Effect::Quit);
    handle_input(&mut app, Key::Char('a'));
    assert_eq!(handle_input(&mut app, Key::Char('q')), Effect::Nothing);
    assert_eq!(app.input, "q");
}

#[test]
fn unknown_keys_are_ignored() {
    let mut app = app_with(&["a"]);
    assert_eq!(handle_input_at(&mut app, Key::Other, at(0)), Effect::Nothing);
    assert_eq!(handle_input_at(&mut app, Key::Char('z'), at(0)), Effect::Nothing);
    assert_eq!(handle_input_at(&mut app, Key::Enter, at(0)), Effect::Nothing);
    assert_eq!(app.input_mode, InputMode::Normal);
    assert_eq!(app.selected_index, None);
}
