use vstd::prelude::*;
use crate::app::advanced;
use crate::store::{added_to, removed_from};
use crate::time::Timestamp;
use crate::todo::Todo;

verus! {

/// One structural change to the store, as a caller asks for it.
pub ghost enum StoreOp {
    Add(Seq<char>, Timestamp),
    Remove(int),
}

/// `new` is what `op` makes of `old`, as `add_task` and `remove_task` state;
/// `ok` is what the call returned.
pub open spec fn op_step(old: Seq<Todo>, new: Seq<Todo>, op: StoreOp, ok: bool) -> bool {
    match op {
        StoreOp::Add(d, t) => added_to(old, new, d, t, ok),
        StoreOp::Remove(i) => removed_from(old, new, i, ok),
    }
}

/// The number of additions that took place among the first `n` operations.
pub open spec fn additions(ops: Seq<StoreOp>, oks: Seq<bool>, n: int) -> int
    decreases n,
{
    if n <= 0 {
        0
    } else {
        additions(ops, oks, n - 1) + if ops[n - 1] is Add && oks[n - 1] { 1int } else { 0int }
    }
}

/// The number of removals that took place among the first `n` operations.
pub open spec fn removals(ops: Seq<StoreOp>, oks: Seq<bool>, n: int) -> int
    decreases n,
{
    if n <= 0 {
        0
    } else {
        removals(ops, oks, n - 1) + if ops[n - 1] is Remove && oks[n - 1] { 1int } else { 0int }
    }
}

/// `stores` is the run of a store through `ops`, each step returning `oks`.
pub open spec fn is_run(stores: Seq<Seq<Todo>>, ops: Seq<StoreOp>, oks: Seq<bool>) -> bool {
    &&& stores.len() == ops.len() + 1
    &&& oks.len() == ops.len()
    &&& forall|k: int| 0 <= k < ops.len() ==> #[trigger] op_step(stores[k], stores[k + 1], ops[k], oks[k])
}

/// Over any run of additions and removals, the store's length grows by the
/// additions that took place and shrinks by the removals that took place.
pub proof fn law_store_length(stores: Seq<Seq<Todo>>, ops: Seq<StoreOp>, oks: Seq<bool>)
    requires
        is_run(stores, ops, oks),
    ensures
        stores.last().len() == stores[0].len() + additions(ops, oks, ops.len() as int) - removals(
            ops,
            oks,
            ops.len() as int,
        ),
    decreases ops.len(),
{
    if ops.len() > 0 {
        let n = ops.len() - 1;
        let s2 = stores.drop_last();
        let o2 = ops.drop_last();
        let k2 = oks.drop_last();
        assert forall|k: int| 0 <= k < o2.len() implies #[trigger] op_step(s2[k], s2[k + 1], o2[k], k2[k]) by {
            assert(op_step(stores[k], stores[k + 1], ops[k], oks[k]));
        }
        law_store_length(s2, o2, k2);
        assert(op_step(stores[n], stores[n + 1], ops[n], oks[n]));
        assert forall|m: int| 0 <= m <= n implies additions(o2, k2, m) == additions(ops, oks, m)
            && removals(o2, k2, m) == removals(ops, oks, m) by {
            lemma_counts_prefix(o2, k2, ops, oks, m);
        }
    }
}

proof fn lemma_counts_prefix(o2: Seq<StoreOp>, k2: Seq<bool>, ops: Seq<StoreOp>, oks: Seq<bool>, m: int)
    requires
        0 <= m <= o2.len(),
        o2.len() <= ops.len(),
        k2.len() == o2.len(),
        oks.len() == ops.len(),
        forall|k: int| 0 <= k < o2.len() ==> o2[k] == ops[k] && k2[k] == oks[k],
    ensures
        additions(o2, k2, m) == additions(ops, oks, m),
        removals(o2, k2, m) == removals(ops, oks, m),
    decreases m,
{
    if m > 0 {
        lemma_counts_prefix(o2, k2, ops, oks, m - 1);
    }
}

/// Each record's id is its position plus one.
pub open spec fn ids_by_position(s: Seq<Todo>) -> bool {
    forall|j: int| 0 <= j < s.len() ==> #[trigger] s[j].id == j + 1
}

/// Ids are fresh only while nothing is removed: over a run with no removal
/// that took place, from a store whose ids follow the positions, every store
/// keeps ids that follow the positions, so no two records share one. A
/// removal breaks this: the next addition takes the id of a record still there
/// or of one that was removed.
pub proof fn law_ids_without_removal(stores: Seq<Seq<Todo>>, ops: Seq<StoreOp>, oks: Seq<bool>)
    requires
        is_run(stores, ops, oks),
        ids_by_position(stores[0]),
        forall|k: int| 0 <= k < ops.len() && #[trigger] ops[k] is Remove ==> !oks[k],
    ensures
        forall|k: int| 0 <= k < stores.len() ==> ids_by_position(#[trigger] stores[k]),
    decreases ops.len(),
{
    if ops.len() > 0 {
        let n = ops.len() - 1;
        let s2 = stores.drop_last();
        let o2 = ops.drop_last();
        let k2 = oks.drop_last();
        assert forall|k: int| 0 <= k < o2.len() implies #[trigger] op_step(s2[k], s2[k + 1], o2[k], k2[k]) by {
            assert(op_step(stores[k], stores[k + 1], ops[k], oks[k]));
        }
        assert forall|k: int| 0 <= k < o2.len() && #[trigger] o2[k] is Remove implies !k2[k] by {
            assert(ops[k] is Remove);
        }
        law_ids_without_removal(s2, o2, k2);
        assert(op_step(stores[n], stores[n + 1], ops[n], oks[n]));
        assert(s2[n] == stores[n]);
        assert(ids_by_position(s2[n]));
        let before = stores[n];
        let after = stores[n + 1];
        assert forall|j: int| 0 <= j < after.len() implies #[trigger] after[j].id == j + 1 by {
            if j < before.len() {
                assert(ops[n] is Remove ==> !oks[n]);
                if ops[n] is Add && oks[n] {
                    assert(after.drop_last()[j] == after[j]);
                }
            }
        }
        assert forall|k: int| 0 <= k < stores.len() implies ids_by_position(#[trigger] stores[k]) by {
            if k < s2.len() {
                assert(s2[k] == stores[k]);
            }
        }
    }
}

/// Toggling keeps the completion time present exactly when the record is
/// completed, and toggling twice restores the completion flag.
pub proof fn law_toggle_twice_flag(t: Todo, first: Timestamp, second: Timestamp)
    ensures
        t.toggled(first).wf(),
        t.toggled(first).toggled(second).completed == t.completed,
{
}

/// Toggling an open record twice gives back the record, completion time
/// included. A completed record comes back with the second toggle's time.
pub proof fn law_toggle_twice_open(t: Todo, first: Timestamp, second: Timestamp)
    requires
        t.wf(),
        !t.completed,
    ensures
        t.toggled(first).toggled(second) == t,
{
}

/// The cursor after `n` forward moves from absent on a view of `len` records.
pub open spec fn advanced_times(len: nat, n: nat) -> Option<usize>
    decreases n,
{
    if n == 0 {
        None
    } else {
        advanced(advanced_times(len, (n - 1) as nat), len)
    }
}

/// Moving forward from absent stays within the view: on an empty view the
/// cursor stays absent, otherwise it lands on a record and never passes the
/// last one.
pub proof fn law_advance_bounded(len: nat, n: nat)
    requires
        len <= usize::MAX,
    ensures
        len == 0 ==> advanced_times(len, n) is None,
        len > 0 && n > 0 ==> (advanced_times(len, n) matches Some(i) && i < len),
    decreases n,
{
    if n > 0 {
        law_advance_bounded(len, (n - 1) as nat);
    }
}

} // verus!
