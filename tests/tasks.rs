use task_tracker::{option_string_to_i8, Task, TaskError, TaskStatus, Tasks, Timestamp};

fn stamp() -> Timestamp {
    Timestamp { secs: 1_700_000_000, nanos: 5, offset_secs: 3600 }
}

fn add(tasks: &mut Tasks, name: &str) {
    let task = Task::new_at(name.to_string(), tasks, stamp());
    tasks.add_task(task);
}

fn task(id: i8, name: &str, status: TaskStatus) -> Task {
    Task { id, name: name.to_string(), status, created_at: stamp() }
}

fn ids(tasks: &Tasks) -> Vec<i8> {
    tasks.tasks().iter().map(|t| t.id).collect()
}

#[test]
fn adds_number_from_one_in_order() {
    let mut tasks = Tasks::new();
    for name in ["a", "b", "c", "d", "e"] {
        add(&mut tasks, name);
    }
    assert_eq!(ids(&tasks), vec![1, 2, 3, 4, 5]);
    let names: Vec<&str> = tasks.tasks().iter().map(|t| t.name.as_str()).collect();
    assert_eq!(names, vec!["a", "b", "c", "d", "e"]);
    assert!(tasks.tasks().iter().all(|t| t.status == TaskStatus::Todo));
}

#[test]
fn next_id_follows_last_task() {
    let mut tasks = Tasks::new();
    assert_eq!(tasks.id(), 1);
    add(&mut tasks, "a");
    add(&mut tasks, "b");
    add(&mut tasks, "c");
    tasks.delete_task(3);
    assert_eq!(tasks.id(), 3);
    tasks.delete_task(1);
    assert_eq!(tasks.id(), 3);
}

#[test]
fn next_id_stops_at_i8_max() {
    let tasks = Tasks::from_tasks(vec![task(126, "a", TaskStatus::Todo)]);
    assert!(tasks.has_next_id());
    assert_eq!(tasks.id(), 127);
    let full = Tasks::from_tasks(vec![task(127, "a", TaskStatus::Todo)]);
    assert!(!full.has_next_id());
    assert!(Tasks::new().has_next_id());
}

#[test]
fn delete_absent_id_changes_nothing() {
    let mut tasks = Tasks::new();
    add(&mut tasks, "a");
    add(&mut tasks, "b");
    tasks.delete_task(7);
    assert_eq!(ids(&tasks), vec![1, 2]);
}

#[test]
fn delete_removes_the_matching_task() {
    let mut tasks = Tasks::new();
    add(&mut tasks, "a");
    add(&mut tasks, "b");
    add(&mut tasks, "c");
    tasks.delete_task(2);
    assert_eq!(ids(&tasks), vec![1, 3]);
    assert_eq!(tasks.tasks()[1].name, "c");
}

#[test]
fn delete_removes_every_duplicate() {
    let mut tasks = Tasks::from_tasks(vec![
        task(4, "a", TaskStatus::Todo),
        task(2, "b", TaskStatus::Done),
        task(4, "c", TaskStatus::Progress),
        task(5, "d", TaskStatus::Todo),
    ]);
    tasks.delete_task(4);
    assert_eq!(ids(&tasks), vec![2, 5]);
}

#[test]
fn delete_all_then_add_starts_again_at_one() {
    let mut tasks = Tasks::new();
    add(&mut tasks, "a");
    add(&mut tasks, "b");
    tasks.delete_all_tasks();
    assert!(tasks.tasks().is_empty());
    add(&mut tasks, "x");
    assert_eq!(tasks.tasks().len(), 1);
    assert_eq!(tasks.tasks()[0].id, 1);
    assert_eq!(tasks.tasks()[0].name, "x");
}

#[test]
fn marked_done_task_is_listed_as_done() {
    let mut tasks = Tasks::new();
    add(&mut tasks, "a");
    add(&mut tasks, "b");
    add(&mut tasks, "c");
    tasks.mark_done(2);
    assert_eq!(tasks.list_done(), vec![" 2. b                    [\u{2714}]".to_string()]);
    assert_eq!(tasks.tasks()[1].status, TaskStatus::Done);
    assert_eq!(tasks.list_todo().len(), 2);
    assert!(tasks.list_progress().is_empty());
}

#[test]
fn listing_by_status_holds_only_that_status() {
    let tasks = Tasks::from_tasks(vec![
        task(1, "a", TaskStatus::Todo),
        task(2, "b", TaskStatus::Progress),
        task(3, "c", TaskStatus::Done),
        task(4, "d", TaskStatus::Progress),
    ]);
    assert_eq!(
        tasks.list_progress(),
        vec![
            " 2. b                    [~]".to_string(),
            " 4. d                    [~]".to_string(),
        ]
    );
    assert_eq!(tasks.list_todo(), vec![" 1. a                    [ ]".to_string()]);
    assert_eq!(tasks.list_by_status(TaskStatus::Done), tasks.list_done());
    assert_eq!(tasks.list_done(), vec![" 3. c                    [\u{2714}]".to_string()]);
}

#[test]
fn mark_absent_id_changes_nothing() {
    let mut tasks = Tasks::new();
    add(&mut tasks, "a");
    tasks.mark_progress(9);
    tasks.mark_done(0);
    assert_eq!(tasks.tasks()[0].status, TaskStatus::Todo);
}

#[test]
fn update_goes_by_position_not_id() {
    let mut tasks = Tasks::from_tasks(vec![
        task(10, "a", TaskStatus::Todo),
        task(20, "b", TaskStatus::Todo),
        task(30, "c", TaskStatus::Done),
        task(3, "d", TaskStatus::Todo),
        task(50, "e", TaskStatus::Todo),
    ]);
    assert_eq!(tasks.update_task(3, "new".to_string()), Ok(()));
    let names: Vec<&str> = tasks.tasks().iter().map(|t| t.name.as_str()).collect();
    assert_eq!(names, vec!["a", "b", "new", "d", "e"]);
    assert_eq!(tasks.tasks()[2].id, 30);
    assert_eq!(tasks.tasks()[2].status, TaskStatus::Done);
}

#[test]
fn update_out_of_range_is_not_found() {
    let mut tasks = Tasks::new();
    add(&mut tasks, "a");
    add(&mut tasks, "b");
    assert_eq!(tasks.update_task(0, "x".to_string()), Err(TaskError::NotFound));
    assert_eq!(tasks.update_task(-128, "x".to_string()), Err(TaskError::NotFound));
    assert_eq!(tasks.update_task(3, "x".to_string()), Err(TaskError::NotFound));
    assert_eq!(tasks.update_task(2, "x".to_string()), Ok(()));
    assert_eq!(tasks.tasks()[0].name, "a");
    assert_eq!(tasks.tasks()[1].name, "x");
}

#[test]
fn buy_milk_walkthrough() {
    let mut tasks = Tasks::new();
    add(&mut tasks, "buy milk");
    assert_eq!(tasks.tasks().len(), 1);
    assert_eq!(tasks.tasks()[0].id, 1);
    assert_eq!(tasks.tasks()[0].status, TaskStatus::Todo);
    tasks.mark_progress(1);
    assert_eq!(tasks.list(), vec![" 1. buy milk             [~]".to_string()]);
    tasks.mark_done(1);
    assert_eq!(tasks.list_done(), vec![" 1. buy milk             [\u{2714}]".to_string()]);
}

#[test]
fn line_pads_short_names_and_keeps_long_ones() {
    let t = task(-128, "a name longer than twenty", TaskStatus::Todo);
    assert_eq!(t.to_string(), " -128. a name longer than twenty [ ]");
    let exact = task(0, "twenty characters!!!", TaskStatus::Done);
    assert_eq!(exact.to_string(), " 0. twenty characters!!! [\u{2714}]");
    let wide = task(42, "caf\u{e9}", TaskStatus::Progress);
    assert_eq!(wide.to_string(), " 42. caf\u{e9}                 [~]");
    assert_eq!(TaskStatus::Progress.marker(), "[~]");
}

#[test]
fn new_task_reads_the_clock() {
    let tasks = Tasks::new();
    let t = Task::new("x".to_string(), &tasks);
    assert_eq!(t.id, 1);
    assert_eq!(t.status, TaskStatus::Todo);
    assert!(t.created_at.secs > 1_600_000_000);
    assert!(t.created_at.nanos < 2_000_000_000);
    assert!(t.created_at.offset_secs.abs() < 86_400);
}

#[test]
fn id_text_parses() {
    assert_eq!(option_string_to_i8(Some("12".to_string())), Ok(12));
    assert_eq!(option_string_to_i8(Some("+5".to_string())), Ok(5));
    assert_eq!(option_string_to_i8(Some("-128".to_string())), Ok(-128));
    assert_eq!(option_string_to_i8(Some("007".to_string())), Ok(7));
}

#[test]
fn bad_id_text_is_refused() {
    assert!(option_string_to_i8(None).is_err());
    assert!(option_string_to_i8(Some("".to_string())).is_err());
    assert!(option_string_to_i8(Some("128".to_string())).is_err());
    assert!(option_string_to_i8(Some("-".to_string())).is_err());
    assert!(option_string_to_i8(Some("1a".to_string())).is_err());
    assert!(option_string_to_i8(Some(" 1".to_string())).is_err());
    assert!(option_string_to_i8(Some("all".to_string())).is_err());
}
