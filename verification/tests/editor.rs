use termfolio::editor::InputEditorState;

#[test]
fn starts_empty() {
    let e = InputEditorState::new();
    assert_eq!(e.text, "");
    assert_eq!(e.cursor, 0);
}

#[test]
fn mid_string_insert_moves_cursor_by_the_delta() {
    let mut e = InputEditorState::new();
    e.text_change("ab".to_string());
    assert_eq!(e.cursor, 2);
    e.arrow_left();
    assert_eq!((e.text.as_str(), e.cursor), ("ab", 1));
    // inserting "x" at the cursor: the delta is +1, so the cursor lands after it
    e.text_change("axb".to_string());
    assert_eq!((e.text.as_str(), e.cursor), ("axb", 2));
}

#[test]
fn deletion_moves_cursor_back_by_the_delta() {
    let mut e = InputEditorState::new();
    e.text_change("abcd".to_string());
    assert_eq!(e.cursor, 4);
    e.text_change("ad".to_string());
    assert_eq!(e.cursor, 2);
    e.text_change("".to_string());
    assert_eq!(e.cursor, 0);
}

#[test]
fn arrows_stop_at_the_edges() {
    let mut e = InputEditorState::new();
    e.text_change("hi".to_string());
    e.arrow_right();
    assert_eq!(e.cursor, 2); // already at the end
    e.arrow_left();
    e.arrow_left();
    e.arrow_left();
    assert_eq!(e.cursor, 0); // saturates at the start
    e.arrow_right();
    assert_eq!(e.cursor, 1);
}

#[test]
fn home_and_end_jump() {
    let mut e = InputEditorState::new();
    e.text_change("fetch".to_string());
    e.home();
    assert_eq!(e.cursor, 0);
    e.end();
    assert_eq!(e.cursor, 5);
}

#[test]
fn recall_puts_the_cursor_at_the_end() {
    let mut e = InputEditorState::new();
    e.recall("projects".to_string());
    assert_eq!((e.text.as_str(), e.cursor), ("projects", 8));
}

#[test]
fn append_extends_and_moves_to_the_end() {
    let mut e = InputEditorState::new();
    e.text_change("fe".to_string());
    e.append("tch");
    assert_eq!((e.text.as_str(), e.cursor), ("fetch", 5));
}

#[test]
fn clear_resets() {
    let mut e = InputEditorState::new();
    e.text_change("echo hi".to_string());
    e.clear();
    assert_eq!((e.text.as_str(), e.cursor), ("", 0));
}
