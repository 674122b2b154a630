use taskscape::starter::{Message, Taskscape};

#[test]
fn starter_adds_typed_text() {
    let mut s = Taskscape::new();
    assert_eq!(s.title(), "Taskscape");
    s.update(Message::InputChanged("  Buy milk ".to_string()));
    s.update(Message::AddTask);
    assert_eq!(s.tasks, vec!["  Buy milk ".to_string()]);
    assert_eq!(s.input_value, "");
}

#[test]
fn starter_ignores_blank_input() {
    let mut s = Taskscape::new();
    s.update(Message::InputChanged(" \t ".to_string()));
    s.update(Message::AddTask);
    assert!(s.tasks.is_empty());
    assert_eq!(s.input_value, " \t ");
}

#[test]
fn starter_clears_tasks() {
    let mut s = Taskscape::new();
    for t in ["a", "b"] {
        s.update(Message::InputChanged(t.to_string()));
        s.update(Message::AddTask);
    }
    assert_eq!(s.tasks.len(), 2);
    s.update(Message::ClearTasks);
    assert!(s.tasks.is_empty());
}
