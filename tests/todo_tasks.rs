use todo_store::{Task, Todo};

fn task(id: u64, description: &str, completed: bool) -> Task {
    Task { id, description: description.to_string(), completed }
}

#[test]
fn add_and_get_task_works() {
    let mut todo = Todo::new();
    let id = todo.add_task("Learn ink!".into());
    let task = todo.get_task(id).unwrap();
    assert_eq!(task.description, "Learn ink!");
    assert_eq!(task.completed, false);
}

#[test]
fn complete_task_works() {
    let mut todo = Todo::new();
    let id = todo.add_task("Finish homework".into());
    assert_eq!(todo.complete_task(id), true);
    assert_eq!(todo.get_task(id).unwrap().completed, true);
}

#[test]
fn update_task_works() {
    let mut todo = Todo::new();
    let id = todo.add_task("Old task".into());
    assert_eq!(todo.update_task(id, "New task".into()), true);
    assert_eq!(todo.get_task(id).unwrap().description, "New task");
}

#[test]
fn delete_task_works() {
    let mut todo = Todo::new();
    let id = todo.add_task("Temporary task".into());
    assert_eq!(todo.delete_task(id), true);
    assert_eq!(todo.get_task(id), None);
}

#[test]
fn get_all_tasks_works() {
    let mut todo = Todo::new();
    todo.add_task("Task 1".into());
    todo.add_task("Task 2".into());
    let all = todo.get_all_tasks();
    assert_eq!(all.len(), 2);
}

#[test]
fn first_task_gets_id_zero() {
    let mut todo = Todo::new();
    assert_eq!(todo.add_task("Learn".into()), 0);
    assert_eq!(todo.get_task(0), Some(task(0, "Learn", false)));
}

#[test]
fn listing_skips_deleted_task() {
    let mut todo = Todo::new();
    assert_eq!(todo.add_task("A".into()), 0);
    assert_eq!(todo.add_task("B".into()), 1);
    assert_eq!(todo.delete_task(0), true);
    assert_eq!(todo.get_all_tasks(), vec![task(1, "B", false)]);
}

#[test]
fn complete_on_empty_store_fails_and_creates_nothing() {
    let mut todo = Todo::new();
    assert_eq!(todo.complete_task(5), false);
    assert_eq!(todo.get_task(5), None);
    assert_eq!(todo.get_all_tasks(), Vec::<Task>::new());
    assert_eq!(todo.add_task("first".into()), 0);
}

#[test]
fn default_store_starts_empty() {
    let mut todo = Todo::default();
    assert_eq!(todo.get_all_tasks(), Vec::<Task>::new());
    assert_eq!(todo.add_task("x".into()), 0);
}

#[test]
fn found_task_carries_its_id() {
    let mut todo = Todo::new();
    for i in 0..5u64 {
        todo.add_task(format!("t{}", i));
    }
    todo.delete_task(2);
    todo.complete_task(3);
    todo.update_task(4, "four".into());
    for id in 0..6u64 {
        if let Some(t) = todo.get_task(id) {
            assert_eq!(t.id, id);
        }
    }
    assert_eq!(todo.get_task(2), None);
    assert_eq!(todo.get_task(5), None);
}

#[test]
fn ids_increase_across_deletions() {
    let mut todo = Todo::new();
    let a = todo.add_task("a".into());
    let b = todo.add_task("b".into());
    assert!(todo.delete_task(b));
    assert!(todo.delete_task(a));
    let c = todo.add_task("c".into());
    assert_eq!((a, b, c), (0, 1, 2));
}

#[test]
fn added_task_is_stored_uncompleted() {
    let mut todo = Todo::new();
    todo.add_task("one".into());
    let id = todo.add_task("".into());
    assert_eq!(id, 1);
    assert_eq!(todo.get_task(id), Some(task(1, "", false)));
}

#[test]
fn complete_is_idempotent_and_keeps_description() {
    let mut todo = Todo::new();
    let id = todo.add_task("walk".into());
    assert!(todo.complete_task(id));
    assert!(todo.complete_task(id));
    assert_eq!(todo.get_task(id), Some(task(0, "walk", true)));
}

#[test]
fn complete_deleted_task_fails() {
    let mut todo = Todo::new();
    let id = todo.add_task("gone".into());
    assert!(todo.delete_task(id));
    assert_eq!(todo.complete_task(id), false);
    assert_eq!(todo.get_task(id), None);
}

#[test]
fn update_keeps_id_and_flag() {
    let mut todo = Todo::new();
    todo.add_task("zero".into());
    let id = todo.add_task("draft".into());
    todo.complete_task(id);
    assert!(todo.update_task(id, "final".into()));
    assert_eq!(todo.get_task(id), Some(task(1, "final", true)));
    assert_eq!(todo.get_task(0), Some(task(0, "zero", false)));
}

#[test]
fn update_absent_task_fails() {
    let mut todo = Todo::new();
    assert_eq!(todo.update_task(0, "nothing".into()), false);
    assert_eq!(todo.get_task(0), None);
    let id = todo.add_task("x".into());
    assert!(todo.delete_task(id));
    assert_eq!(todo.update_task(id, "y".into()), false);
    assert_eq!(todo.get_all_tasks(), Vec::<Task>::new());
}

#[test]
fn delete_twice_fails_second_time() {
    let mut todo = Todo::new();
    let id = todo.add_task("once".into());
    assert_eq!(todo.delete_task(id), true);
    assert_eq!(todo.delete_task(id), false);
    assert_eq!(todo.delete_task(7), false);
    assert_eq!(todo.add_task("next".into()), 1);
}

#[test]
fn listing_is_ascending_with_holes() {
    let mut todo = Todo::new();
    for name in ["a", "b", "c", "d", "e"] {
        todo.add_task(name.into());
    }
    todo.delete_task(1);
    todo.delete_task(3);
    todo.complete_task(4);
    assert_eq!(
        todo.get_all_tasks(),
        vec![task(0, "a", false), task(2, "c", false), task(4, "e", true)]
    );
}

#[test]
fn listing_length_counts_live_tasks() {
    let mut todo = Todo::new();
    for i in 0..10u64 {
        todo.add_task(format!("task {}", i));
    }
    for id in [0u64, 4, 9] {
        assert!(todo.delete_task(id));
    }
    let all = todo.get_all_tasks();
    assert_eq!(all.len(), 7);
    let ids: Vec<u64> = all.iter().map(|t| t.id).collect();
    assert_eq!(ids, vec![1, 2, 3, 5, 6, 7, 8]);
}

#[test]
fn long_description_is_stored() {
    let mut todo = Todo::new();
    let long: String = "\u{1F600}".repeat(5000);
    let id = todo.add_task(long.clone());
    assert_eq!(todo.get_task(id).unwrap().description, long);
    let other: String = "z".repeat(20000);
    assert!(todo.update_task(id, other.clone()));
    assert_eq!(todo.get_task(id).unwrap().description, other);
}

#[test]
fn next_id_follows_adds_not_deletes() {
    let mut todo = Todo::new();
    assert_eq!(todo.next_id(), 0);
    todo.add_task("a".into());
    todo.add_task("b".into());
    assert_eq!(todo.next_id(), 2);
    assert!(todo.delete_task(1));
    assert_eq!(todo.next_id(), 2);
    assert!(!todo.complete_task(2));
    assert_eq!(todo.next_id(), 2);
}
