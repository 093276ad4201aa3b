use vstd::prelude::*;
use crate::text::{decimal, parse_tags, push_decimal, tags_from_text, trim_of};
use vstd::string::StringExecFns;
use crate::time::Timestamp;
use crate::todo::{Priority, Todo};

verus! {

/// Which records the list shows.
#[derive(Clone, Copy, Debug, PartialEq, Eq, Structural)]
pub enum Filter {
    All,
    Active,
    Completed,
    HighPriority,
}

/// The round-robin order All -> Active -> Completed -> HighPriority -> All.
pub open spec fn spec_next_filter(f: Filter) -> Filter {
    match f {
        Filter::All => Filter::Active,
        Filter::Active => Filter::Completed,
        Filter::Completed => Filter::HighPriority,
        Filter::HighPriority => Filter::All,
    }
}

pub open spec fn shows(f: Filter, t: Todo) -> bool {
    match f {
        Filter::All => true,
        Filter::Active => !t.completed,
        Filter::Completed => t.completed,
        Filter::HighPriority => t.priority == Priority::High,
    }
}

/// The store positions of the records that `f` shows, in store order.
pub open spec fn view_indices(s: Seq<Todo>, f: Filter) -> Seq<int>
    decreases s.len(),
{
    if s.len() == 0 {
        Seq::empty()
    } else {
        let prev = view_indices(s.drop_last(), f);
        if shows(f, s.last()) {
            prev.push(s.len() - 1)
        } else {
            prev
        }
    }
}

pub open spec fn view_len(s: Seq<Todo>, f: Filter) -> nat {
    view_indices(s, f).len()
}

/// The records that `f` shows, in store order.
pub open spec fn filtered(s: Seq<Todo>, f: Filter) -> Seq<Todo> {
    view_indices(s, f).map_values(|i: int| s[i])
}

pub open spec fn filter_name(f: Filter) -> Seq<char> {
    match f {
        Filter::All => "All"@,
        Filter::Active => "Active"@,
        Filter::Completed => "Completed"@,
        Filter::HighPriority => "High Priority"@,
    }
}

/// Each position of the view is a position of the store whose record `f`
/// shows, and positions increase.
pub proof fn lemma_view_indices(s: Seq<Todo>, f: Filter)
    ensures
        view_indices(s, f).len() <= s.len(),
        forall|j: int|
            0 <= j < view_indices(s, f).len() ==> 0 <= #[trigger] view_indices(s, f)[j] < s.len()
                && shows(f, s[view_indices(s, f)[j]]),
        forall|j: int, k: int|
            0 <= j < k < view_indices(s, f).len() ==> #[trigger] view_indices(s, f)[j]
                < #[trigger] view_indices(s, f)[k],
    decreases s.len(),
{
    if s.len() > 0 {
        lemma_view_indices(s.drop_last(), f);
    }
}

/// Appending a record extends the view by that record, if the filter shows it.
pub proof fn lemma_view_indices_push(s: Seq<Todo>, t: Todo, f: Filter)
    ensures
        view_indices(s.push(t), f) == if shows(f, t) {
            view_indices(s, f).push(s.len() as int)
        } else {
            view_indices(s, f)
        },
{
    assert(s.push(t).drop_last() =~= s);
}

/// Two stores of one length whose records `f` shows at the same positions
/// have the same view.
pub proof fn lemma_view_indices_same(s1: Seq<Todo>, s2: Seq<Todo>, f: Filter)
    requires
        s1.len() == s2.len(),
        forall|j: int| 0 <= j < s1.len() ==> shows(f, s1[j]) == shows(f, s2[j]),
    ensures
        view_indices(s1, f) == view_indices(s2, f),
    decreases s1.len(),
{
    if s1.len() > 0 {
        lemma_view_indices_same(s1.drop_last(), s2.drop_last(), f);
    }
}

impl Filter {
    pub fn next(self) -> (r: Filter)
        ensures
            r == spec_next_filter(self),
    {
        match self {
            Filter::All => Filter::Active,
            Filter::Active => Filter::Completed,
            Filter::Completed => Filter::HighPriority,
            Filter::HighPriority => Filter::All,
        }
    }

    pub fn shows(&self, t: &Todo) -> (r: bool)
        ensures
            r == shows(*self, *t),
    {
        match self {
            Filter::All => true,
            Filter::Active => !t.completed,
            Filter::Completed => t.completed,
            Filter::HighPriority => t.priority == Priority::High,
        }
    }

    /// The name shown for the filter.
    pub fn name(&self) -> (r: &'static str)
        ensures
            r@ == filter_name(*self),
    {
        match self {
            Filter::All => "All",
            Filter::Active => "Active",
            Filter::Completed => "Completed",
            Filter::HighPriority => "High Priority",
        }
    }
}

/// The store positions of the records that `filter` shows, in store order.
pub fn view_positions(store: &Vec<Todo>, filter: Filter) -> (r: Vec<usize>)
    ensures
        r@.len() == view_len(store@, filter),
        forall|j: int| 0 <= j < r@.len() ==> r@[j] as int == #[trigger] view_indices(store@, filter)[j],
{
    let mut r: Vec<usize> = Vec::new();
    let mut i: usize = 0;
    while i < store.len()
        invariant
            i <= store.len(),
            r@.len() == view_len(store@.take(i as int), filter),
            forall|j: int|
                0 <= j < r@.len() ==> r@[j] as int == #[trigger] view_indices(
                    store@.take(i as int),
                    filter,
                )[j],
        decreases store.len() - i,
    {
        proof {
            assert(store@.take(i + 1) =~= store@.take(i as int).push(store@[i as int]));
            lemma_view_indices_push(store@.take(i as int), store@[i as int], filter);
        }
        if filter.shows(&store[i]) {
            r.push(i);
        }
        i = i + 1;
    }
    assert(store@.take(store.len() as int) =~= store@);
    r
}

/// The number of completed records.
pub open spec fn count_completed(s: Seq<Todo>) -> nat
    decreases s.len(),
{
    if s.len() == 0 {
        0
    } else {
        count_completed(s.drop_last()) + if s.last().completed { 1nat } else { 0nat }
    }
}

/// The number of records of high priority.
pub open spec fn count_high(s: Seq<Todo>) -> nat
    decreases s.len(),
{
    if s.len() == 0 {
        0
    } else {
        count_high(s.drop_last()) + if s.last().priority == Priority::High { 1nat } else { 0nat }
    }
}

/// The summary line: counts over the whole store and the active filter's name.
pub open spec fn status_text(s: Seq<Todo>, f: Filter) -> Seq<char> {
    "Total: "@ + decimal(s.len()) + " | Completed: "@ + decimal(count_completed(s))
        + " | Pending: "@ + decimal((s.len() - count_completed(s)) as nat)
        + " | High Priority: "@ + decimal(count_high(s)) + " | Filter: "@ + filter_name(f)
}

pub proof fn lemma_counts_bounded(s: Seq<Todo>)
    ensures
        count_completed(s) <= s.len(),
        count_high(s) <= s.len(),
    decreases s.len(),
{
    if s.len() > 0 {
        lemma_counts_bounded(s.drop_last());
    }
}

/// `new` is `old` after adding a record for `description` at `now`; `added`
/// tells whether the description, trimmed, was non-blank and an id was left.
pub open spec fn added_to(old: Seq<Todo>, new: Seq<Todo>, description: Seq<char>, now: Timestamp, added: bool) -> bool {
    &&& added == (trim_of(description).len() > 0 && old.len() < usize::MAX)
    &&& added ==> {
        &&& new.len() == old.len() + 1
        &&& new.drop_last() == old
        &&& new.last().is_fresh(old.len() + 1 as int, description, now)
    }
    &&& !added ==> new == old
}

/// `new` is `old` after removing the record at `index`; `applied` tells
/// whether `index` was in range.
pub open spec fn removed_from(old: Seq<Todo>, new: Seq<Todo>, index: int, applied: bool) -> bool {
    &&& applied == (0 <= index < old.len())
    &&& applied ==> new == old.remove(index)
    &&& !applied ==> new == old
}

/// Appends a new record for `description`, unless the description is blank
/// once trimmed or the store has no room for another id. The new id is the
/// length before the insertion plus one.
pub fn add_task(store: &mut Vec<Todo>, description: String, now: Timestamp) -> (added: bool)
    ensures
        added_to(old(store)@, final(store)@, description@, now, added),
        !added ==> *final(store) == *old(store),
{
    if description.as_str().trim().is_empty() || store.len() == usize::MAX {
        return false;
    }
    let id = store.len() + 1;
    store.push(Todo::new(id, description, now));
    assert(final(store)@.drop_last() =~= old(store)@);
    true
}

/// Flips the completion of the record at store position `index`, setting or
/// clearing its completion time to match; out of range it does nothing.
pub fn toggle_completion(store: &mut Vec<Todo>, index: usize, now: Timestamp) -> (applied: bool)
    ensures
        applied == (index < old(store)@.len()),
        applied ==> final(store)@ == old(store)@.update(index as int, old(store)@[index as int].toggled(now)),
        !applied ==> *final(store) == *old(store),
{
    if index >= store.len() {
        return false;
    }
    let done = !store[index].completed;
    store[index].completed = done;
    store[index].completed_at = if done { Some(now) } else { None };
    assert(final(store)@ =~= old(store)@.update(index as int, old(store)@[index as int].toggled(now)));
    true
}

/// Removes the record at store position `index`; out of range it does nothing.
pub fn remove_task(store: &mut Vec<Todo>, index: usize) -> (applied: bool)
    ensures
        removed_from(old(store)@, final(store)@, index as int, applied),
        !applied ==> *final(store) == *old(store),
{
    if index >= store.len() {
        return false;
    }
    store.remove(index);
    true
}

/// Rotates the priority of the record at store position `index`; out of
/// range it does nothing.
pub fn cycle_priority(store: &mut Vec<Todo>, index: usize) -> (applied: bool)
    ensures
        applied == (index < old(store)@.len()),
        applied ==> final(store)@ == old(store)@.update(index as int, old(store)@[index as int].with_next_priority()),
        !applied ==> *final(store) == *old(store),
{
    if index >= store.len() {
        return false;
    }
    let p = store[index].priority.next();
    store[index].priority = p;
    assert(final(store)@ =~= old(store)@.update(index as int, old(store)@[index as int].with_next_priority()));
    true
}

/// Replaces the tags of the record at store position `index` with those read
/// from `raw`; out of range it does nothing.
pub fn set_tags(store: &mut Vec<Todo>, index: usize, raw: &str) -> (applied: bool)
    ensures
        applied == (index < old(store)@.len()),
        applied ==> final(store)@.len() == old(store)@.len()
            && (forall|j: int| 0 <= j < old(store)@.len() && j != index ==> final(store)@[j] == old(store)@[j])
            && Todo::same_but_tags(old(store)@[index as int], final(store)@[index as int])
            && final(store)@[index as int].tags.deep_view() == parse_tags(raw@),
        !applied ==> *final(store) == *old(store),
{
    if index >= store.len() {
        return false;
    }
    store[index].tags = tags_from_text(raw);
    true
}

/// Replaces the notes of the record at store position `index`; out of range
/// it does nothing.
pub fn set_notes(store: &mut Vec<Todo>, index: usize, text: String) -> (applied: bool)
    ensures
        applied == (index < old(store)@.len()),
        applied ==> final(store)@ == old(store)@.update(index as int, Todo { notes: text, ..old(store)@[index as int] }),
        !applied ==> *final(store) == *old(store),
{
    if index >= store.len() {
        return false;
    }
    store[index].notes = text;
    assert(final(store)@ =~= old(store)@.update(index as int, Todo { notes: text, ..old(store)@[index as int] }));
    true
}

/// Counts the completed records and those of high priority.
pub fn counts(store: &Vec<Todo>) -> (r: (usize, usize))
    ensures
        r.0 as nat == count_completed(store@),
        r.1 as nat == count_high(store@),
{
    let mut done: usize = 0;
    let mut high: usize = 0;
    let mut i: usize = 0;
    while i < store.len()
        invariant
            i <= store.len(),
            done as nat == count_completed(store@.take(i as int)),
            high as nat == count_high(store@.take(i as int)),
        decreases store.len() - i,
    {
        proof {
            assert(store@.take(i + 1).drop_last() =~= store@.take(i as int));
            lemma_counts_bounded(store@.take(i as int));
        }
        if store[i].completed {
            done = done + 1;
        }
        if store[i].priority == Priority::High {
            high = high + 1;
        }
        i = i + 1;
    }
    assert(store@.take(store.len() as int) =~= store@);
    (done, high)
}

/// The summary line for the store under the active filter.
pub fn status_line(store: &Vec<Todo>, filter: Filter) -> (r: String)
    ensures
        r@ == status_text(store@, filter),
{
    let (done, high) = counts(store);
    proof {
        lemma_counts_bounded(store@);
    }
    let total = store.len();
    let mut out = String::new();
    out.append("Total: ");
    push_decimal(&mut out, total);
    out.append(" | Completed: ");
    push_decimal(&mut out, done);
    out.append(" | Pending: ");
    push_decimal(&mut out, total - done);
    out.append(" | High Priority: ");
    push_decimal(&mut out, high);
    out.append(" | Filter: ");
    out.append(filter.name());
    assert(out@ =~= status_text(store@, filter));
    out
}

} // verus!
