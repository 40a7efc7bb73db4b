use termfolio::strutil::{
    join_spaces_vec, join_with_strs, split_at, split_first, split_spaces_str, starts_with_str,
    str_eq, trim_str,
};

#[test]
fn str_eq_compares_by_content() {
    assert!(str_eq("fetch", "fetch"));
    assert!(!str_eq("fetch", "fetch "));
    assert!(!str_eq("fetch", "Fetch"));
    assert!(str_eq("", ""));
}

#[test]
fn starts_with_matches_prefixes() {
    assert!(starts_with_str("fetching", "fetch"));
    assert!(starts_with_str("fetch", ""));
    assert!(!starts_with_str("fetch", "fetching"));
    assert!(!starts_with_str("fetch", "echo"));
}

#[test]
fn trim_removes_edge_whitespace_only() {
    assert_eq!(trim_str("  echo hi \t"), "echo hi");
    assert_eq!(trim_str("\t \r\n"), "");
    assert_eq!(trim_str("plain"), "plain");
}

#[test]
fn split_keeps_empty_segments() {
    assert_eq!(split_spaces_str("a  b"), ["a", "", "b"]);
    assert_eq!(split_spaces_str(""), [""]);
    assert_eq!(split_spaces_str("one"), ["one"]);
}

#[test]
fn join_is_the_inverse_of_split() {
    for s in ["a b c", "a  b", "", "lone", " leading"] {
        let parts = split_spaces_str(s);
        assert_eq!(join_spaces_vec(&parts), s);
    }
}

#[test]
fn join_with_a_custom_separator() {
    assert_eq!(join_with_strs(&vec!["ack", "clear"], ", "), "ack, clear");
    assert_eq!(join_with_strs(&vec!["solo"], ", "), "solo");
    assert_eq!(join_with_strs(&vec![], ", "), "");
}

#[test]
fn split_at_cuts_at_a_character_position() {
    assert_eq!(split_at("fetch", 0), ("".to_string(), "fetch".to_string()));
    assert_eq!(split_at("fetch", 3), ("fet".to_string(), "ch".to_string()));
    assert_eq!(split_at("fetch", 5), ("fetch".to_string(), "".to_string()));
}

#[test]
fn split_first_keeps_the_space_with_the_tail() {
    assert_eq!(
        split_first("echo a b"),
        ("echo".to_string(), " a b".to_string())
    );
    assert_eq!(split_first("echo"), ("echo".to_string(), "".to_string()));
    assert_eq!(split_first(""), ("".to_string(), "".to_string()));
}
