use task_core::model::{Subtask, Task};

#[test]
fn task_record_holds_its_fields() {
    let subtask = Subtask {
        id: String::from("s1"),
        title: String::from("step one"),
        description: None,
        completed: false,
        order: 0,
    };
    let task = Task {
        id: String::from("t1"),
        title: String::from("write report"),
        description: Some(String::from("a longer text")),
        date: None,
        state: String::from("open"),
        subtasks: vec![subtask],
        energy_tag: Some(String::from("low")),
        order: 3,
        created_at: String::from("2024-01-01T00:00:00Z"),
        updated_at: String::from("2024-01-02T00:00:00Z"),
    };
    assert_eq!(task.id, "t1");
    assert_eq!(task.subtasks.len(), 1);
    assert_eq!(task.subtasks[0].title, "step one");
    assert!(!task.subtasks[0].completed);
    assert_eq!(task.order, 3);
}
