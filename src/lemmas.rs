//! What holds of the store across operations, proved over its model.

use crate::model::{Operation, StoreModel, TaskModel};
use vstd::prelude::*;

verus! {

/// Every operation keeps the store well formed.
pub proof fn lemma_apply_wf(s: StoreModel, op: Operation)
    requires
        s.wf(),
    ensures
        s.apply(op).wf(),
{
}

/// Any sequence of operations keeps the store well formed.
pub proof fn lemma_run_wf(s: StoreModel, ops: Seq<Operation>)
    requires
        s.wf(),
    ensures
        s.run(ops).wf(),
    decreases ops.len(),
{
    if ops.len() > 0 {
        lemma_run_wf(s, ops.drop_last());
        lemma_apply_wf(s.run(ops.drop_last()), ops.last());
    }
}

/// The counter of issued ids never goes back, whatever operations run.
pub proof fn lemma_run_next_id_grows(s: StoreModel, ops: Seq<Operation>)
    ensures
        s.run(ops).next_id >= s.next_id,
    decreases ops.len(),
{
    if ops.len() > 0 {
        lemma_run_next_id_grows(s, ops.drop_last());
    }
}

/// After any sequence of operations on a new store, every task that a lookup
/// of `id` finds carries `id` as its id.
pub proof fn lemma_found_task_has_its_id(ops: Seq<Operation>, id: u64)
    ensures
        StoreModel::empty().run(ops).tasks.contains_key(id) ==> StoreModel::empty().run(
            ops,
        ).tasks[id].id == id,
{
    lemma_run_wf(StoreModel::empty(), ops);
}

/// An id that `add` returns is larger than every id an earlier `add` returned,
/// whatever operations ran between them, as long as the earlier one left the
/// counter unsaturated.
pub proof fn lemma_added_ids_increase(s: StoreModel, d1: Seq<char>, ops: Seq<Operation>)
    requires
        s.next_id < u64::MAX,
    ensures
        s.next_id < s.add(d1).run(ops).next_id,
{
    lemma_run_next_id_grows(s.add(d1), ops);
}

/// Right after `add(d)`, the id it returned holds a task with description `d`,
/// not completed.
pub proof fn lemma_add_then_get(s: StoreModel, d: Seq<char>)
    ensures
        s.add(d).tasks.contains_key(s.next_id),
        s.add(d).tasks[s.next_id] == (TaskModel { id: s.next_id, description: d, completed: false }),
{
}

/// Completing `id` finds it exactly when it is live; afterwards a live task is
/// completed, with its id and description unchanged.
pub proof fn lemma_complete_then_get(s: StoreModel, id: u64)
    ensures
        s.complete(id).tasks.contains_key(id) == s.tasks.contains_key(id),
        s.tasks.contains_key(id) ==> s.complete(id).tasks[id] == (TaskModel {
            id: s.tasks[id].id,
            description: s.tasks[id].description,
            completed: true,
        }),
{
}

/// Updating `id` finds it exactly when it is live; afterwards a live task has
/// the new description, with its id and completion flag unchanged.
pub proof fn lemma_update_then_get(s: StoreModel, id: u64, d: Seq<char>)
    ensures
        s.update(id, d).tasks.contains_key(id) == s.tasks.contains_key(id),
        s.tasks.contains_key(id) ==> s.update(id, d).tasks[id] == (TaskModel {
            id: s.tasks[id].id,
            description: d,
            completed: s.tasks[id].completed,
        }),
{
}

/// After deleting a live task, a lookup of its id finds nothing, and no later
/// `add`, whatever operations ran before it, returns that id again. The one
/// exception is the largest `u64`, which a saturated counter keeps issuing.
pub proof fn lemma_deleted_id_not_reissued(s: StoreModel, id: u64, ops: Seq<Operation>)
    requires
        s.wf(),
        s.tasks.contains_key(id),
        id < u64::MAX,
    ensures
        !s.delete(id).tasks.contains_key(id),
        s.delete(id).run(ops).next_id > id,
{
    lemma_run_next_id_grows(s.delete(id), ops);
}

/// The tasks of `listed_below(n)` are live, each under its own id below `n`,
/// in strictly ascending order of id, and there are as many as live ids
/// below `n`.
pub proof fn lemma_listed_below(s: StoreModel, n: nat)
    requires
        s.wf(),
        n <= u64::MAX + 1,
    ensures
        forall|i: int|
            0 <= i < s.listed_below(n).len() ==> {
                &&& (#[trigger] s.listed_below(n)[i]).id < n
                &&& s.tasks.contains_key(s.listed_below(n)[i].id)
                &&& s.tasks[s.listed_below(n)[i].id] == s.listed_below(n)[i]
            },
        forall|i: int, j: int|
            0 <= i < j < s.listed_below(n).len() ==> (#[trigger] s.listed_below(n)[i]).id
                < (#[trigger] s.listed_below(n)[j]).id,
        s.listed_below(n).len() == s.tasks.dom().filter(|k: u64| (k as nat) < n).len(),
    decreases n,
{
    let below = s.tasks.dom().filter(|k: u64| (k as nat) < n);
    if n == 0 {
        assert(below =~= Set::empty());
    } else {
        let m = (n - 1) as nat;
        lemma_listed_below(s, m);
        let earlier = s.tasks.dom().filter(|k: u64| (k as nat) < m);
        vstd::set_lib::lemma_set_subset_finite(s.tasks.dom(), earlier);
        if s.tasks.contains_key(m as u64) {
            assert(below =~= earlier.insert(m as u64));
        } else {
            assert(below =~= earlier);
        }
    }
}

/// A full listing shows live tasks in strictly ascending order of id, so with
/// no id twice, and each as the store holds it. Unless a task sits under the
/// largest `u64` (which only a saturated counter issues, and which lies beyond
/// the range a listing walks), it shows every live task.
pub proof fn lemma_listing(s: StoreModel)
    requires
        s.wf(),
    ensures
        forall|i: int, j: int|
            0 <= i < j < s.listed().len() ==> (#[trigger] s.listed()[i]).id < (
            #[trigger] s.listed()[j]).id,
        forall|i: int|
            0 <= i < s.listed().len() ==> s.tasks.contains_key((#[trigger] s.listed()[i]).id)
                && s.tasks[s.listed()[i].id] == s.listed()[i],
        !s.tasks.contains_key(u64::MAX) ==> s.listed().len() == s.tasks.dom().len(),
{
    let n = s.next_id as nat;
    lemma_listed_below(s, n);
    if !s.tasks.contains_key(u64::MAX) {
        assert(s.tasks.dom().filter(|k: u64| (k as nat) < n) =~= s.tasks.dom());
    }
}

} // verus!
