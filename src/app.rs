use vstd::prelude::*;
use crate::store::{
    add_task, cycle_priority, lemma_view_indices, lemma_view_indices_push, lemma_view_indices_same,
    remove_task, set_notes, set_tags, spec_next_filter, status_line, status_text,
    toggle_completion, view_indices, view_len, view_positions, Filter,
};
use crate::text::{parse_tags, trim_of};
use crate::time::{at_or_before, now, spec_plus_seconds, Timestamp};
use crate::todo::Todo;

verus! {

/// How long a notification stays, in seconds.
pub const MESSAGE_SECONDS: i64 = 3;

/// How keystrokes are read.
#[derive(Clone, Copy, Debug, PartialEq, Eq, Structural)]
pub enum InputMode {
    Normal,
    AddingTodo,
    AddingNote,
    AddingTags,
    Help,
}

/// The category of a notification.
#[derive(Clone, Copy, Debug, PartialEq, Eq, Structural)]
pub enum MessageKind {
    Success,
    Info,
}

/// The cursor after moving forward on a view of `len` records: it starts at
/// the first and stops at the last.
pub open spec fn advanced(c: Option<usize>, len: nat) -> Option<usize> {
    if len == 0 {
        None
    } else {
        match c {
            None => Some(0usize),
            Some(i) => Some(if i + 1 < len { (i + 1) as usize } else { (len - 1) as usize }),
        }
    }
}

/// The cursor after moving back on a view of `len` records: it starts at the
/// first and stops there.
pub open spec fn retreated(c: Option<usize>, len: nat) -> Option<usize> {
    if len == 0 {
        None
    } else {
        match c {
            None => Some(0usize),
            Some(i) => Some(if i == 0 { 0usize } else { (i - 1) as usize }),
        }
    }
}

/// The cursor after the view has changed to `len` records: pulled back onto
/// the last record if it points past the end, absent on an empty view.
pub open spec fn rehomed(c: Option<usize>, len: nat) -> Option<usize> {
    match c {
        None => None,
        Some(i) => if len == 0 {
            None
        } else if i >= len {
            Some((len - 1) as usize)
        } else {
            Some(i)
        },
    }
}

/// The whole state of a session.
pub struct App {
    pub todos: Vec<Todo>,
    pub input: String,
    pub input_mode: InputMode,
    pub selected_index: Option<usize>,
    pub filter: Filter,
    pub message: Option<(String, MessageKind)>,
    pub message_timeout: Option<Timestamp>,
}

impl App {
    /// The cursor points into the filtered view.
    pub open spec fn wf(&self) -> bool {
        self.selected_index matches Some(i) ==> i < view_len(self.todos@, self.filter)
    }

    /// The store position of the selected record, if any.
    pub open spec fn selected_position(&self) -> Option<int> {
        match self.selected_index {
            Some(i) => if i < view_len(self.todos@, self.filter) {
                Some(view_indices(self.todos@, self.filter)[i as int])
            } else {
                None
            },
            None => None,
        }
    }

    /// A notification with this text and kind shows until `now` plus its duration.
    pub open spec fn notifies(&self, text: Seq<char>, kind: MessageKind, now: Timestamp) -> bool {
        &&& self.message matches Some((m, k)) && m@ == text && k == kind
        &&& self.message_timeout == Some(spec_plus_seconds(now, MESSAGE_SECONDS))
    }

    /// The text buffer and the mode are kept.
    pub open spec fn same_frame(a: App, b: App) -> bool {
        &&& b.input == a.input
        &&& b.input_mode == a.input_mode
    }

    /// The store, the cursor, the filter and the notification are kept.
    pub open spec fn same_state(a: App, b: App) -> bool {
        &&& b.todos == a.todos
        &&& b.selected_index == a.selected_index
        &&& b.filter == a.filter
        &&& App::same_message(a, b)
    }

    /// The notification is kept.
    pub open spec fn same_message(a: App, b: App) -> bool {
        &&& b.message == a.message
        &&& b.message_timeout == a.message_timeout
    }

    /// `new` is `old` showing a notification with this text and kind from `now`.
    pub open spec fn after_show(old: App, new: App, text: Seq<char>, kind: MessageKind, now: Timestamp) -> bool {
        &&& App::same_frame(old, new)
        &&& new.filter == old.filter
        &&& new.todos == old.todos
        &&& new.selected_index == old.selected_index
        &&& new.notifies(text, kind, now)
    }

    /// `new` is `old` after adding a record for `description` at `now`, with
    /// its success notification; `added` tells whether it took place.
    pub open spec fn after_add(old: App, new: App, description: Seq<char>, now: Timestamp, added: bool) -> bool {
        &&& added == (trim_of(description).len() > 0 && old.todos@.len() < usize::MAX)
        &&& added ==> {
            &&& new.filter == old.filter
            &&& new.selected_index == old.selected_index
            &&& new.todos@.len() == old.todos@.len() + 1
            &&& new.todos@.drop_last() == old.todos@
            &&& new.todos@.last().is_fresh(old.todos@.len() + 1 as int, description, now)
            &&& new.notifies("Todo added successfully!"@, MessageKind::Success, now)
        }
        &&& !added ==> App::same_state(old, new)
    }

    /// `new` is `old` after flipping the completion of the selected record at
    /// `now`; `applied` tells whether a record was selected.
    pub open spec fn after_toggle(old: App, new: App, now: Timestamp, applied: bool) -> bool {
        &&& applied == old.selected_position() is Some
        &&& applied ==> {
            &&& new.filter == old.filter
            &&& App::same_message(old, new)
            &&& new.todos@ == old.todos@.update(
                old.selected_position()->0,
                old.todos@[old.selected_position()->0].toggled(now),
            )
            &&& new.selected_index == rehomed(old.selected_index, view_len(new.todos@, new.filter))
        }
        &&& !applied ==> App::same_state(old, new)
    }

    /// `new` is `old` after rotating the priority of the selected record, with
    /// its notification; `applied` tells whether a record was selected.
    pub open spec fn after_priority(old: App, new: App, now: Timestamp, applied: bool) -> bool {
        &&& applied == old.selected_position() is Some
        &&& applied ==> {
            &&& new.filter == old.filter
            &&& new.todos@ == old.todos@.update(
                old.selected_position()->0,
                old.todos@[old.selected_position()->0].with_next_priority(),
            )
            &&& new.selected_index == rehomed(old.selected_index, view_len(new.todos@, new.filter))
            &&& new.notifies("Priority updated!"@, MessageKind::Info, now)
        }
        &&& !applied ==> App::same_state(old, new)
    }

    /// `new` is `old` after replacing the selected record's tags with those
    /// read from `raw`, with its notification; `applied` tells whether a
    /// record was selected.
    pub open spec fn after_tags(old: App, new: App, raw: Seq<char>, now: Timestamp, applied: bool) -> bool {
        &&& applied == old.selected_position() is Some
        &&& applied ==> {
            let p = old.selected_position()->0;
            &&& new.filter == old.filter
            &&& new.selected_index == old.selected_index
            &&& new.todos@.len() == old.todos@.len()
            &&& forall|j: int| 0 <= j < old.todos@.len() && j != p ==> new.todos@[j] == old.todos@[j]
            &&& Todo::same_but_tags(old.todos@[p], new.todos@[p])
            &&& new.todos@[p].tags.deep_view() == parse_tags(raw)
            &&& new.notifies("Tags updated!"@, MessageKind::Success, now)
        }
        &&& !applied ==> App::same_state(old, new)
    }

    /// `new` is `old` after replacing the selected record's notes with `note`,
    /// with its notification; `applied` tells whether a record was selected.
    pub open spec fn after_note(old: App, new: App, note: String, now: Timestamp, applied: bool) -> bool {
        &&& applied == old.selected_position() is Some
        &&& applied ==> {
            let p = old.selected_position()->0;
            &&& new.filter == old.filter
            &&& new.selected_index == old.selected_index
            &&& new.todos@ == old.todos@.update(p, Todo { notes: note, ..old.todos@[p] })
            &&& new.notifies("Note added!"@, MessageKind::Success, now)
        }
        &&& !applied ==> App::same_state(old, new)
    }

    /// `new` is `old` after removing the selected record; `applied` tells
    /// whether a record was selected.
    pub open spec fn after_delete(old: App, new: App, applied: bool) -> bool {
        &&& applied == old.selected_position() is Some
        &&& applied ==> {
            &&& new.filter == old.filter
            &&& App::same_message(old, new)
            &&& new.todos@ == old.todos@.remove(old.selected_position()->0)
            &&& new.selected_index == rehomed(old.selected_index, view_len(new.todos@, new.filter))
        }
        &&& !applied ==> App::same_state(old, new)
    }

    /// `new` is `old` with its notification cleared if it expired at or before `now`.
    pub open spec fn after_update(old: App, new: App, now: Timestamp) -> bool {
        &&& App::same_frame(old, new)
        &&& new.filter == old.filter
        &&& new.todos == old.todos
        &&& new.selected_index == old.selected_index
        &&& if old.message_timeout matches Some(t) && at_or_before(t, now) {
            new.message is None && new.message_timeout is None
        } else {
            App::same_message(old, new)
        }
    }

    /// A session over the given records: normal mode, every record shown,
    /// nothing selected, no notification.
    pub fn new(todos: Vec<Todo>) -> (r: App)
        ensures
            r.todos == todos,
            r.input@.len() == 0,
            r.input_mode == InputMode::Normal,
            r.selected_index is None,
            r.filter == Filter::All,
            r.message is None,
            r.message_timeout is None,
            r.wf(),
    {
        App {
            todos,
            input: String::new(),
            input_mode: InputMode::Normal,
            selected_index: None,
            filter: Filter::All,
            message: None,
            message_timeout: None,
        }
    }

    /// The records that the active filter shows, in store order.
    pub fn filtered_todos(&self) -> (r: Vec<&Todo>)
        ensures
            r@.len() == view_len(self.todos@, self.filter),
            forall|j: int| 0 <= j < r@.len() ==> *r@[j] == self.todos@[#[trigger] view_indices(self.todos@, self.filter)[j]],
    {
        let pos = view_positions(&self.todos, self.filter);
        proof {
            lemma_view_indices(self.todos@, self.filter);
        }
        let mut r: Vec<&Todo> = Vec::new();
        let mut j: usize = 0;
        while j < pos.len()
            invariant
                j <= pos.len(),
                pos@.len() == view_len(self.todos@, self.filter),
                forall|k: int| 0 <= k < pos@.len() ==> pos@[k] as int == #[trigger] view_indices(self.todos@, self.filter)[k],
                forall|k: int| 0 <= k < view_indices(self.todos@, self.filter).len() ==> 0 <= #[trigger] view_indices(self.todos@, self.filter)[k] < self.todos@.len(),
                r@.len() == j,
                forall|k: int| 0 <= k < j ==> *r@[k] == self.todos@[#[trigger] view_indices(self.todos@, self.filter)[k]],
            decreases pos.len() - j,
        {
            assert(pos@[j as int] as int == view_indices(self.todos@, self.filter)[j as int]);
            r.push(&self.todos[pos[j]]);
            j = j + 1;
        }
        r
    }

    /// The store position of the selected record, if any.
    pub fn selected_store_index(&self) -> (r: Option<usize>)
        ensures
            r matches Some(p) ==> self.selected_position() == Some(p as int),
            r is None ==> self.selected_position() is None,
            r matches Some(p) ==> p < self.todos@.len(),
    {
        match self.selected_index {
            None => None,
            Some(i) => {
                let pos = view_positions(&self.todos, self.filter);
                proof {
                    lemma_view_indices(self.todos@, self.filter);
                }
                if i < pos.len() {
                    assert(pos@[i as int] as int == view_indices(self.todos@, self.filter)[i as int]);
                    Some(pos[i])
                } else {
                    None
                }
            }
        }
    }

    /// The selected record, if any.
    pub fn get_selected_todo(&self) -> (r: Option<&Todo>)
        ensures
            r is Some == self.selected_position() is Some,
            r matches Some(t) ==> *t == self.todos@[self.selected_position()->0],
    {
        match self.selected_store_index() {
            Some(p) => Some(&self.todos[p]),
            None => None,
        }
    }

    /// Counts over the whole store and the active filter's name.
    pub fn get_status_line(&self) -> (r: String)
        ensures
            r@ == status_text(self.todos@, self.filter),
    {
        status_line(&self.todos, self.filter)
    }

    /// Moves to the next filter in the rotation and clears the selection.
    pub fn cycle_filter(&mut self)
        ensures
            final(self).filter == spec_next_filter(old(self).filter),
            final(self).selected_index is None,
            final(self).todos == old(self).todos,
            final(self).input == old(self).input,
            final(self).input_mode == old(self).input_mode,
            App::same_message(*old(self), *final(self)),
            final(self).wf(),
    {
        self.filter = self.filter.next();
        self.selected_index = None;
    }

    /// Moves the cursor forward when `delta` is positive, else back; both stop
    /// at the ends of the view.
    pub fn move_selection(&mut self, delta: i32)
        requires
            old(self).wf(),
        ensures
            final(self).selected_index == if delta > 0 {
                advanced(old(self).selected_index, view_len(old(self).todos@, old(self).filter))
            } else {
                retreated(old(self).selected_index, view_len(old(self).todos@, old(self).filter))
            },
            final(self).todos == old(self).todos,
            final(self).filter == old(self).filter,
            App::same_frame(*old(self), *final(self)),
            App::same_message(*old(self), *final(self)),
            final(self).wf(),
    {
        let len = view_positions(&self.todos, self.filter).len();
        if len == 0 {
            self.selected_index = None;
            return;
        }
        let next = match self.selected_index {
            Some(i) => {
                if delta > 0 {
                    if i + 1 < len { i + 1 } else { len - 1 }
                } else {
                    if i == 0 { 0 } else { i - 1 }
                }
            },
            None => 0,
        };
        self.selected_index = Some(next);
    }

    /// Shows a notification until `now` plus its duration.
    pub fn show_message_at(&mut self, message: &str, kind: MessageKind, now: Timestamp)
        ensures
            App::after_show(*old(self), *final(self), message@, kind, now),
    {
        self.message = Some((message.to_owned(), kind));
        self.message_timeout = Some(now.plus_seconds(MESSAGE_SECONDS));
    }

    /// Clears the notification once its expiry is at or before `now`.
    pub fn update_at(&mut self, now: Timestamp)
        ensures
            App::after_update(*old(self), *final(self), now),
    {
        if let Some(t) = self.message_timeout {
            if t.is_at_or_before(&now) {
                self.message = None;
                self.message_timeout = None;
            }
        }
    }
    /// Adds a record for `description` at the end of the store and notifies,
    /// unless the description is blank once trimmed or no id is left.
    pub fn add_todo_at(&mut self, description: String, now: Timestamp) -> (added: bool)
        requires
            old(self).wf(),
        ensures
            App::after_add(*old(self), *final(self), description@, now, added),
            App::same_frame(*old(self), *final(self)),
            final(self).wf(),
    {
        let ghost d = description@;
        let added = add_task(&mut self.todos, description, now);
        if added {
            proof {
                let s = old(self).todos@;
                assert(self.todos@ =~= s.push(self.todos@.last()));
                lemma_view_indices_push(s, self.todos@.last(), self.filter);
            }
            self.show_message_at("Todo added successfully!", MessageKind::Success, now);
        }
        added
    }

    /// Flips the completion of the selected record; nothing without a selection.
    pub fn toggle_todo_at(&mut self, now: Timestamp) -> (applied: bool)
        requires
            old(self).wf(),
        ensures
            App::after_toggle(*old(self), *final(self), now, applied),
            App::same_frame(*old(self), *final(self)),
            final(self).wf(),
    {
        match self.selected_store_index() {
            None => false,
            Some(p) => {
                toggle_completion(&mut self.todos, p, now);
                self.rehome();
                true
            }
        }
    }

    /// Removes the selected record; nothing without a selection.
    pub fn delete_todo(&mut self) -> (applied: bool)
        requires
            old(self).wf(),
        ensures
            App::after_delete(*old(self), *final(self), applied),
            App::same_frame(*old(self), *final(self)),
            final(self).wf(),
    {
        match self.selected_store_index() {
            None => false,
            Some(p) => {
                remove_task(&mut self.todos, p);
                self.rehome();
                true
            }
        }
    }

    /// Rotates the priority of the selected record and notifies; nothing
    /// without a selection.
    pub fn toggle_priority_at(&mut self, now: Timestamp) -> (applied: bool)
        requires
            old(self).wf(),
        ensures
            App::after_priority(*old(self), *final(self), now, applied),
            App::same_frame(*old(self), *final(self)),
            final(self).wf(),
    {
        match self.selected_store_index() {
            None => false,
            Some(p) => {
                cycle_priority(&mut self.todos, p);
                self.rehome();
                self.show_message_at("Priority updated!", MessageKind::Info, now);
                true
            }
        }
    }

    /// Replaces the tags of the selected record with those read from `tags`
    /// and notifies; nothing without a selection.
    pub fn add_tags_at(&mut self, tags: String, now: Timestamp) -> (applied: bool)
        requires
            old(self).wf(),
        ensures
            App::after_tags(*old(self), *final(self), tags@, now, applied),
            App::same_frame(*old(self), *final(self)),
            final(self).wf(),
    {
        match self.selected_store_index() {
            None => false,
            Some(p) => {
                set_tags(&mut self.todos, p, tags.as_str());
                proof {
                    lemma_view_indices_same(old(self).todos@, self.todos@, self.filter);
                }
                self.show_message_at("Tags updated!", MessageKind::Success, now);
                true
            }
        }
    }

    /// Replaces the notes of the selected record and notifies; nothing
    /// without a selection.
    pub fn add_note_at(&mut self, note: String, now: Timestamp) -> (applied: bool)
        requires
            old(self).wf(),
        ensures
            App::after_note(*old(self), *final(self), note, now, applied),
            App::same_frame(*old(self), *final(self)),
            final(self).wf(),
    {
        match self.selected_store_index() {
            None => false,
            Some(p) => {
                let ghost n = note;
                set_notes(&mut self.todos, p, note);
                proof {
                    lemma_view_indices_same(old(self).todos@, self.todos@, self.filter);
                }
                self.show_message_at("Note added!", MessageKind::Success, now);
                true
            }
        }
    }

    /// As `add_todo_at`, stamped with the current time.
    pub fn add_todo(&mut self, description: String) -> (added: bool)
        requires
            old(self).wf(),
        ensures
            exists|t: Timestamp| App::after_add(*old(self), *final(self), description@, t, added),
            App::same_frame(*old(self), *final(self)),
            final(self).wf(),
    {
        let t = now();
        self.add_todo_at(description, t)
    }

    /// As `toggle_todo_at`, stamped with the current time.
    pub fn toggle_todo(&mut self) -> (applied: bool)
        requires
            old(self).wf(),
        ensures
            exists|t: Timestamp| App::after_toggle(*old(self), *final(self), t, applied),
            App::same_frame(*old(self), *final(self)),
            final(self).wf(),
    {
        let t = now();
        self.toggle_todo_at(t)
    }

    /// As `toggle_priority_at`, stamped with the current time.
    pub fn toggle_priority(&mut self) -> (applied: bool)
        requires
            old(self).wf(),
        ensures
            exists|t: Timestamp| App::after_priority(*old(self), *final(self), t, applied),
            App::same_frame(*old(self), *final(self)),
            final(self).wf(),
    {
        let t = now();
        self.toggle_priority_at(t)
    }

    /// As `add_tags_at`, stamped with the current time.
    pub fn add_tags(&mut self, tags: String) -> (applied: bool)
        requires
            old(self).wf(),
        ensures
            exists|t: Timestamp| App::after_tags(*old(self), *final(self), tags@, t, applied),
            App::same_frame(*old(self), *final(self)),
            final(self).wf(),
    {
        let t = now();
        self.add_tags_at(tags, t)
    }

    /// As `add_note_at`, stamped with the current time.
    pub fn add_note(&mut self, note: String) -> (applied: bool)
        requires
            old(self).wf(),
        ensures
            exists|t: Timestamp| App::after_note(*old(self), *final(self), note, t, applied),
            App::same_frame(*old(self), *final(self)),
            final(self).wf(),
    {
        let t = now();
        self.add_note_at(note, t)
    }

    /// As `show_message_at`, from the current time.
    pub fn show_message(&mut self, message: &str, kind: MessageKind)
        ensures
            exists|t: Timestamp| App::after_show(*old(self), *final(self), message@, kind, t),
    {
        let t = now();
        self.show_message_at(message, kind, t)
    }

    /// As `update_at`, against the current time.
    pub fn update(&mut self)
        ensures
            exists|t: Timestamp| App::after_update(*old(self), *final(self), t),
    {
        let t = now();
        self.update_at(t)
    }

    /// Pulls the cursor back into the view after the store has changed.
    fn rehome(&mut self)
        ensures
            final(self).selected_index == rehomed(old(self).selected_index, view_len(old(self).todos@, old(self).filter)),
            final(self).todos == old(self).todos,
            final(self).filter == old(self).filter,
            App::same_frame(*old(self), *final(self)),
            App::same_message(*old(self), *final(self)),
            final(self).wf(),
    {
        if let Some(i) = self.selected_index {
            let len = view_positions(&self.todos, self.filter).len();
            if len == 0 {
                self.selected_index = None;
            } else if i >= len {
                self.selected_index = Some(len - 1);
            }
        }
    }
}


} // verus!
