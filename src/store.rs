//! The task store: tasks keyed by id, ids issued from a counter that never
//! goes back.

use crate::model::{StoreModel, TaskModel};
use std::collections::HashMap;
use vstd::prelude::*;

verus! {

broadcast use vstd::std_specs::hash::group_hash_axioms;

/// A task: its id, its description, and whether it has been completed.
#[derive(Debug, Clone, PartialEq, Eq)]
pub struct Task {
    pub id: u64,
    pub description: String,
    pub completed: bool,
}

impl View for Task {
    type V = TaskModel;

    open spec fn view(&self) -> TaskModel {
        TaskModel { id: self.id, description: self.description@, completed: self.completed }
    }
}

/// The models of a sequence of tasks.
pub open spec fn task_models(v: Seq<Task>) -> Seq<TaskModel> {
    v.map_values(|t: Task| t@)
}

/// A copy of `t`.
fn copy_task(t: &Task) -> (r: Task)
    ensures
        r@ == t@,
{
    Task { id: t.id, description: t.description.clone(), completed: t.completed }
}

/// The task store. It owns its tasks; a host that keeps them across calls
/// stores what `get_all_tasks` and `next_id` report.
pub struct Todo {
    tasks: HashMap<u64, Task>,
    next_id: u64,
}

impl View for Todo {
    type V = StoreModel;

    closed spec fn view(&self) -> StoreModel {
        StoreModel { tasks: self.tasks@.map_values(|t: Task| t@), next_id: self.next_id }
    }
}

impl Todo {
    /// The store is well formed.
    pub open spec fn wf(&self) -> bool {
        self@.wf()
    }

    /// An empty store, which issues id zero first.
    pub fn new() -> (r: Self)
        ensures
            r.wf(),
            r@ == StoreModel::empty(),
    {
        let r = Todo { tasks: HashMap::new(), next_id: 0 };
        assert(r@.tasks =~= Map::<u64, TaskModel>::empty());
        r
    }

    /// An empty store; the same as `new`.
    pub fn default() -> (r: Self)
        ensures
            r.wf(),
            r@ == StoreModel::empty(),
    {
        Self::new()
    }

    /// The id that the next added task receives.
    pub fn next_id(&self) -> (r: u64)
        ensures
            r == self@.next_id,
    {
        self.next_id
    }

    /// Adds a task with `description`, not completed, under the next id, and
    /// returns that id. The counter moves on by one, saturating at the
    /// largest `u64`.
    pub fn add_task(&mut self, description: String) -> (id: u64)
        requires
            old(self).wf(),
        ensures
            final(self).wf(),
            id == old(self)@.next_id,
            final(self)@ == old(self)@.add(description@),
    {
        let id = self.next_id;
        let task = Task { id, description, completed: false };
        let ghost added = task@;
        self.tasks.insert(id, task);
        self.next_id = self.next_id.saturating_add(1);
        assert(self@.tasks =~= old(self)@.add(added.description).tasks);
        id
    }

    /// The task under `id`, if it is live.
    pub fn get_task(&self, id: u64) -> (r: Option<Task>)
        requires
            self.wf(),
        ensures
            r.is_some() == self@.tasks.contains_key(id),
            r matches Some(t) ==> t@ == self@.tasks[id] && t.id == id,
    {
        match self.tasks.get(&id) {
            Some(t) => Some(copy_task(t)),
            None => None,
        }
    }

    /// Every live task with an id below the counter, by ascending id.
    pub fn get_all_tasks(&self) -> (r: Vec<Task>)
        requires
            self.wf(),
        ensures
            task_models(r@) == self@.listed(),
    {
        let mut all: Vec<Task> = Vec::new();
        let mut i: u64 = 0;
        while i < self.next_id
            invariant
                self.wf(),
                i <= self.next_id,
                task_models(all@) == self@.listed_below(i as nat),
            decreases self.next_id - i,
        {
            let ghost before = all@;
            match self.tasks.get(&i) {
                Some(t) => {
                    let t = copy_task(t);
                    all.push(t);
                    assert(task_models(all@) =~= task_models(before).push(t@));
                },
                None => {},
            }
            i = i + 1;
        }
        all
    }

    /// Marks task `id` as completed, if it is live; says whether it was.
    pub fn complete_task(&mut self, id: u64) -> (r: bool)
        requires
            old(self).wf(),
        ensures
            final(self).wf(),
            r == old(self)@.tasks.contains_key(id),
            final(self)@ == old(self)@.complete(id),
    {
        match self.tasks.get(&id) {
            Some(t) => {
                let mut task = copy_task(t);
                task.completed = true;
                self.tasks.insert(id, task);
                assert(self@.tasks =~= old(self)@.complete(id).tasks);
                true
            },
            None => false,
        }
    }

    /// Replaces the description of task `id` by `new_description`, if it is
    /// live; says whether it was.
    pub fn update_task(&mut self, id: u64, new_description: String) -> (r: bool)
        requires
            old(self).wf(),
        ensures
            final(self).wf(),
            r == old(self)@.tasks.contains_key(id),
            final(self)@ == old(self)@.update(id, new_description@),
    {
        match self.tasks.get(&id) {
            Some(t) => {
                let task = Task { id: t.id, description: new_description, completed: t.completed };
                let ghost updated = task@;
                self.tasks.insert(id, task);
                assert(self@.tasks =~= old(self)@.update(id, updated.description).tasks);
                true
            },
            None => false,
        }
    }

    /// Removes task `id`, if it is live; says whether it was. Its id is not
    /// issued again.
    pub fn delete_task(&mut self, id: u64) -> (r: bool)
        requires
            old(self).wf(),
        ensures
            final(self).wf(),
            r == old(self)@.tasks.contains_key(id),
            final(self)@ == old(self)@.delete(id),
    {
        if self.tasks.contains_key(&id) {
            self.tasks.remove(&id);
            assert(self@.tasks =~= old(self)@.delete(id).tasks);
            true
        } else {
            assert(self@.tasks =~= old(self)@.delete(id).tasks);
            false
        }
    }
}

} // verus!
