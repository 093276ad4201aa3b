use vstd::prelude::*;
use crate::app::{advanced, retreated, App, InputMode};
use crate::store::{spec_next_filter, view_len};
use crate::text::{join_comma, join_with_comma};
use crate::time::{now, Timestamp};

verus! {

/// A key press, by its logical identity.
#[derive(Clone, Copy, Debug, PartialEq, Eq, Structural)]
pub enum Key {
    Char(char),
    Enter,
    Esc,
    Backspace,
    Up,
    Down,
    Tab,
    Other,
}

/// What the surrounding loop does after a key press.
#[derive(Clone, Copy, Debug, PartialEq, Eq, Structural)]
pub enum Effect {
    /// Nothing beyond drawing the new state.
    Nothing,
    /// The store changed: persist it.
    Save,
    /// Stop the session.
    Quit,
}

/// Nothing changed.
pub open spec fn unchanged(old: App, new: App) -> bool {
    App::same_state(old, new) && App::same_frame(old, new)
}

/// `Save` when a change to the store took place.
pub open spec fn save_if(applied: bool) -> Effect {
    if applied { Effect::Save } else { Effect::Nothing }
}

/// A key press in normal mode.
pub open spec fn normal_step(old: App, new: App, key: Key, now: Timestamp, e: Effect) -> bool {
    let len = view_len(old.todos@, old.filter);
    if key == Key::Char('q') {
        e == Effect::Quit && unchanged(old, new)
    } else if key == Key::Char('a') {
        &&& e == Effect::Nothing
        &&& App::same_state(old, new)
        &&& new.input_mode == InputMode::AddingTodo
        &&& new.input@.len() == 0
    } else if key == Key::Char('j') || key == Key::Down {
        &&& e == Effect::Nothing
        &&& App::same_frame(old, new)
        &&& new.todos == old.todos && new.filter == old.filter && App::same_message(old, new)
        &&& new.selected_index == advanced(old.selected_index, len)
    } else if key == Key::Char('k') || key == Key::Up {
        &&& e == Effect::Nothing
        &&& App::same_frame(old, new)
        &&& new.todos == old.todos && new.filter == old.filter && App::same_message(old, new)
        &&& new.selected_index == retreated(old.selected_index, len)
    } else if key == Key::Char(' ') {
        e == save_if(old.selected_position() is Some) && App::same_frame(old, new)
            && App::after_toggle(old, new, now, e == Effect::Save)
    } else if key == Key::Char('d') {
        e == save_if(old.selected_position() is Some) && App::same_frame(old, new)
            && App::after_delete(old, new, e == Effect::Save)
    } else if key == Key::Char('p') {
        e == save_if(old.selected_position() is Some) && App::same_frame(old, new)
            && App::after_priority(old, new, now, e == Effect::Save)
    } else if key == Key::Char('t') {
        &&& e == Effect::Nothing
        &&& App::same_state(old, new)
        &&& if old.selected_position() is Some {
            new.input_mode == InputMode::AddingTags
                && new.input@ == join_with_comma(old.todos@[old.selected_position()->0].tags.deep_view())
        } else {
            App::same_frame(old, new)
        }
    } else if key == Key::Char('n') {
        &&& e == Effect::Nothing
        &&& App::same_state(old, new)
        &&& if old.selected_position() is Some {
            new.input_mode == InputMode::AddingNote
                && new.input == old.todos@[old.selected_position()->0].notes
        } else {
            App::same_frame(old, new)
        }
    } else if key == Key::Tab {
        &&& e == Effect::Nothing
        &&& App::same_frame(old, new)
        &&& new.todos == old.todos && App::same_message(old, new)
        &&& new.filter == spec_next_filter(old.filter)
        &&& new.selected_index is None
    } else if key == Key::Char('?') {
        &&& e == Effect::Nothing
        &&& App::same_state(old, new)
        &&& new.input == old.input
        &&& new.input_mode == InputMode::Help
    } else {
        e == Effect::Nothing && unchanged(old, new)
    }
}

/// A key press in one of the three text-entry modes; `Enter` commits.
pub open spec fn entry_step(old: App, new: App, key: Key, now: Timestamp, e: Effect) -> bool {
    match key {
        Key::Char(c) => {
            &&& e == Effect::Nothing
            &&& App::same_state(old, new)
            &&& new.input_mode == old.input_mode
            &&& new.input@ == old.input@.push(c)
        },
        Key::Backspace => {
            &&& e == Effect::Nothing
            &&& App::same_state(old, new)
            &&& new.input_mode == old.input_mode
            &&& new.input@ == if old.input@.len() == 0 { old.input@ } else { old.input@.drop_last() }
        },
        Key::Esc => {
            &&& e == Effect::Nothing
            &&& App::same_state(old, new)
            &&& new.input_mode == InputMode::Normal
            &&& new.input@.len() == 0
        },
        Key::Enter => {
            &&& e != Effect::Quit
            &&& new.input@.len() == 0
            &&& match old.input_mode {
                InputMode::AddingTodo => {
                    &&& App::after_add(old, new, old.input@, now, e == Effect::Save)
                    &&& new.input_mode == if e == Effect::Save { InputMode::Normal } else { InputMode::AddingTodo }
                },
                InputMode::AddingTags => {
                    &&& App::after_tags(old, new, old.input@, now, e == Effect::Save)
                    &&& new.input_mode == InputMode::Normal
                },
                _ => {
                    &&& App::after_note(old, new, old.input, now, e == Effect::Save)
                    &&& new.input_mode == InputMode::Normal
                },
            }
        },
        _ => e == Effect::Nothing && unchanged(old, new),
    }
}

/// A key press in help mode: only `Esc` leaves it.
pub open spec fn help_step(old: App, new: App, key: Key, e: Effect) -> bool {
    &&& e == Effect::Nothing
    &&& App::same_state(old, new)
    &&& new.input == old.input
    &&& new.input_mode == if key == Key::Esc { InputMode::Normal } else { InputMode::Help }
}

/// The effect of one key press in the current mode.
pub open spec fn step(old: App, new: App, key: Key, now: Timestamp, e: Effect) -> bool {
    match old.input_mode {
        InputMode::Normal => normal_step(old, new, key, now, e),
        InputMode::Help => help_step(old, new, key, e),
        _ => entry_step(old, new, key, now, e),
    }
}

/// Empties the text buffer and returns what it held.
fn take_input(app: &mut App) -> (r: String)
    ensures
        r == old(app).input,
        final(app).input@.len() == 0,
        final(app).input_mode == old(app).input_mode,
        App::same_state(*old(app), *final(app)),
{
    let mut taken = String::new();
    std::mem::swap(&mut app.input, &mut taken);
    taken
}

fn handle_normal_mode(app: &mut App, key: Key, now: Timestamp) -> (e: Effect)
    requires
        old(app).wf(),
        old(app).input_mode == InputMode::Normal,
    ensures
        normal_step(*old(app), *final(app), key, now, e),
        final(app).wf(),
{
    match key {
        Key::Char('q') => Effect::Quit,
        Key::Char('a') => {
            app.input_mode = InputMode::AddingTodo;
            app.input = String::new();
            Effect::Nothing
        },
        Key::Char('j') | Key::Down => {
            app.move_selection(1);
            Effect::Nothing
        },
        Key::Char('k') | Key::Up => {
            app.move_selection(-1);
            Effect::Nothing
        },
        Key::Char(' ') => save_of(app.toggle_todo_at(now)),
        Key::Char('d') => save_of(app.delete_todo()),
        Key::Char('p') => save_of(app.toggle_priority_at(now)),
        Key::Char('t') => {
            if let Some(p) = app.selected_store_index() {
                app.input = join_comma(&app.todos[p].tags);
                app.input_mode = InputMode::AddingTags;
            }
            Effect::Nothing
        },
        Key::Char('n') => {
            if let Some(p) = app.selected_store_index() {
                app.input = app.todos[p].notes.clone();
                app.input_mode = InputMode::AddingNote;
            }
            Effect::Nothing
        },
        Key::Tab => {
            app.cycle_filter();
            Effect::Nothing
        },
        Key::Char('?') => {
            app.input_mode = InputMode::Help;
            Effect::Nothing
        },
        _ => Effect::Nothing,
    }
}

fn save_of(applied: bool) -> (e: Effect)
    ensures
        e == save_if(applied),
{
    if applied { Effect::Save } else { Effect::Nothing }
}

fn handle_editing_mode(app: &mut App, key: Key, now: Timestamp) -> (e: Effect)
    requires
        old(app).wf(),
        old(app).input_mode == InputMode::AddingTodo || old(app).input_mode == InputMode::AddingTags
            || old(app).input_mode == InputMode::AddingNote,
    ensures
        entry_step(*old(app), *final(app), key, now, e),
        final(app).wf(),
{
    match key {
        Key::Char(c) => {
            app.input.push(c);
            Effect::Nothing
        },
        Key::Backspace => {
            app.input.pop();
            Effect::Nothing
        },
        Key::Esc => {
            app.input_mode = InputMode::Normal;
            app.input = String::new();
            Effect::Nothing
        },
        Key::Enter => {
            let text = take_input(app);
            match app.input_mode {
                InputMode::AddingTodo => {
                    let added = app.add_todo_at(text, now);
                    if added {
                        app.input_mode = InputMode::Normal;
                    }
                    save_of(added)
                },
                InputMode::AddingTags => {
                    let applied = app.add_tags_at(text, now);
                    app.input_mode = InputMode::Normal;
                    save_of(applied)
                },
                _ => {
                    let applied = app.add_note_at(text, now);
                    app.input_mode = InputMode::Normal;
                    save_of(applied)
                },
            }
        },
        _ => Effect::Nothing,
    }
}

fn handle_help_mode(app: &mut App, key: Key) -> (e: Effect)
    requires
        old(app).input_mode == InputMode::Help,
    ensures
        help_step(*old(app), *final(app), key, e),
{
    if key == Key::Esc {
        app.input_mode = InputMode::Normal;
    }
    Effect::Nothing
}

/// Handles one key press at `now`, in the current mode.
pub fn handle_input_at(app: &mut App, key: Key, now: Timestamp) -> (e: Effect)
    requires
        old(app).wf(),
    ensures
        step(*old(app), *final(app), key, now, e),
        final(app).wf(),
{
    match app.input_mode {
        InputMode::Normal => handle_normal_mode(app, key, now),
        InputMode::Help => handle_help_mode(app, key),
        _ => handle_editing_mode(app, key, now),
    }
}

/// Handles one key press, stamped with the current time.
pub fn handle_input(app: &mut App, key: Key) -> (e: Effect)
    requires
        old(app).wf(),
    ensures
        exists|t: Timestamp| step(*old(app), *final(app), key, t, e),
        final(app).wf(),
{
    let t = now();
    handle_input_at(app, key, t)
}

} // verus!
