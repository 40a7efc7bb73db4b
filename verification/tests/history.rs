use termfolio::history::{next, prev, History};

#[test]
fn test_history_new() {
    let history = History::new();
    assert!(history.commands().is_empty());
    assert!(history.buffer().is_empty());
}

#[test]
fn test_history_push_basic() {
    let mut history = History::new();
    history.push("echo");

    assert_eq!(history.commands(), &["echo"]);
    assert_eq!(
        history
            .buffer()
            .iter()
            .map(|e| e.input.clone())
            .collect::<Vec<_>>(),
        &["echo"]
    );
}

#[test]
fn test_history_push_duplicate() {
    let mut history = History::new();
    history.push("echo");
    history.push("echo");

    assert_eq!(history.commands(), &["echo"]);
    assert_eq!(
        history
            .buffer()
            .iter()
            .map(|e| e.input.clone())
            .collect::<Vec<_>>(),
        &["echo", "echo"]
    );
}

#[test]
fn test_history_push_different() {
    let mut history = History::new();
    history.push("echo");
    history.push("clear");

    assert_eq!(history.commands(), &["echo", "clear"]);
    assert_eq!(
        history
            .buffer()
            .iter()
            .map(|e| e.input.clone())
            .collect::<Vec<_>>(),
        &["echo", "clear"]
    );
}

#[test]
fn test_history_clear() {
    let mut history = History::new();
    history.push("echo");
    history.push("clear");

    history.clear();
    assert!(history.buffer().is_empty());
    assert_eq!(history.commands(), &["echo", "clear"]); // commands should remain
}

fn recall_fixture() -> History {
    let mut history = History::new();
    history.push("clear");
    history.push("echo");
    history.push("fetch");
    history
}

#[test]
fn test_prev_normal() {
    let history = recall_fixture();
    let (idx, value) = prev(2, &history);
    assert_eq!(idx, 1);
    assert_eq!(value, "echo");
}

#[test]
fn test_prev_at_start() {
    let history = recall_fixture();
    let (idx, value) = prev(0, &history);
    assert_eq!(idx, 0);
    assert_eq!(value, "clear");
}

#[test]
fn test_next_normal() {
    let history = recall_fixture();
    let (idx, value) = next(0, &history);
    assert_eq!(idx, 1);
    assert_eq!(value, "echo");
}

#[test]
fn test_next_at_end() {
    let history = recall_fixture();
    let (idx, value) = next(2, &history);
    assert_eq!(idx, 3);
    assert_eq!(value, "");
}

#[test]
fn test_empty_history() {
    let history = History::new();

    // Test prev with empty history
    let (idx, value) = prev(0, &history);
    assert_eq!(idx, 0);
    assert_eq!(value, "");

    // Test next with empty history
    let (idx, value) = next(0, &history);
    assert_eq!(idx, 0);
    assert_eq!(value, "");
}

#[test]
fn duplicates_apart_are_kept() {
    let mut history = History::new();
    history.push("echo");
    history.push("clear");
    history.push("echo");
    assert_eq!(history.commands(), &["echo", "clear", "echo"]);
}

#[test]
fn entry_keeps_its_input() {
    let entry = termfolio::history::Entry::new("fetch".to_string());
    assert_eq!(entry.input, "fetch");
    // the id is the creation timestamp; two entries made in order never go backwards
    let later = termfolio::history::Entry::new("fetch".to_string());
    assert!(later.id() >= entry.id());
}
