//! The mathematical model of the task store: the live tasks keyed by id and
//! the next id to issue, with the effect of each operation on them.

use vstd::prelude::*;

verus! {

/// A task as a mathematical value.
pub struct TaskModel {
    pub id: u64,
    pub description: Seq<char>,
    pub completed: bool,
}

/// The store as a mathematical value: every live task under its id, and the id
/// that the next added task receives.
pub struct StoreModel {
    pub tasks: Map<u64, TaskModel>,
    pub next_id: u64,
}

/// An operation that changes the store. Reads leave it as it is.
pub enum Operation {
    Add(Seq<char>),
    Complete(u64),
    Update(u64, Seq<char>),
    Delete(u64),
}

/// `n + 1`, or `n` itself where that would leave the range of `u64`.
pub open spec fn saturating_successor(n: u64) -> u64 {
    if n == u64::MAX {
        n
    } else {
        (n + 1) as u64
    }
}

impl StoreModel {
    /// The store with no tasks, which issues id zero next.
    pub open spec fn empty() -> StoreModel {
        StoreModel { tasks: Map::empty(), next_id: 0 }
    }

    /// Finitely many tasks; each under its own id; each id already issued
    /// (below `next_id`, or equal to it once the counter has saturated).
    pub open spec fn wf(self) -> bool {
        &&& self.tasks.dom().finite()
        &&& forall|k: u64| #[trigger]
            self.tasks.contains_key(k) ==> {
                &&& self.tasks[k].id == k
                &&& (k < self.next_id || (k == self.next_id && self.next_id == u64::MAX))
            }
    }

    /// After adding a task with description `d`: it is stored under the id
    /// that was next, not completed, and the counter moves on by one, up to
    /// the largest `u64`.
    pub open spec fn add(self, d: Seq<char>) -> StoreModel {
        StoreModel {
            tasks: self.tasks.insert(
                self.next_id,
                TaskModel { id: self.next_id, description: d, completed: false },
            ),
            next_id: saturating_successor(self.next_id),
        }
    }

    /// After completing task `id`: if it is live, its flag is set; otherwise
    /// nothing changes.
    pub open spec fn complete(self, id: u64) -> StoreModel {
        if self.tasks.contains_key(id) {
            StoreModel {
                tasks: self.tasks.insert(
                    id,
                    TaskModel {
                        id: self.tasks[id].id,
                        description: self.tasks[id].description,
                        completed: true,
                    },
                ),
                next_id: self.next_id,
            }
        } else {
            self
        }
    }

    /// After updating task `id` to description `d`: if it is live, its
    /// description is `d`; otherwise nothing changes.
    pub open spec fn update(self, id: u64, d: Seq<char>) -> StoreModel {
        if self.tasks.contains_key(id) {
            StoreModel {
                tasks: self.tasks.insert(
                    id,
                    TaskModel {
                        id: self.tasks[id].id,
                        description: d,
                        completed: self.tasks[id].completed,
                    },
                ),
                next_id: self.next_id,
            }
        } else {
            self
        }
    }

    /// After deleting task `id`: it is gone; the counter stays.
    pub open spec fn delete(self, id: u64) -> StoreModel {
        StoreModel { tasks: self.tasks.remove(id), next_id: self.next_id }
    }

    /// The store after one operation.
    pub open spec fn apply(self, op: Operation) -> StoreModel {
        match op {
            Operation::Add(d) => self.add(d),
            Operation::Complete(id) => self.complete(id),
            Operation::Update(id, d) => self.update(id, d),
            Operation::Delete(id) => self.delete(id),
        }
    }

    /// The store after the operations `ops`, in order.
    pub open spec fn run(self, ops: Seq<Operation>) -> StoreModel
        decreases ops.len(),
    {
        if ops.len() == 0 {
            self
        } else {
            self.run(ops.drop_last()).apply(ops.last())
        }
    }

    /// The live tasks with an id below `n`, by ascending id.
    pub open spec fn listed_below(self, n: nat) -> Seq<TaskModel>
        decreases n,
    {
        if n == 0 {
            Seq::empty()
        } else {
            let earlier = self.listed_below((n - 1) as nat);
            if self.tasks.contains_key((n - 1) as u64) {
                earlier.push(self.tasks[(n - 1) as u64])
            } else {
                earlier
            }
        }
    }

    /// What a full listing of the store shows: the live tasks with an id below
    /// `next_id`, by ascending id.
    pub open spec fn listed(self) -> Seq<TaskModel> {
        self.listed_below(self.next_id as nat)
    }
}

} // verus!
