use termfolio::typeahead::use_typeahead;

fn candidates() -> Vec<&'static str> {
    vec!["clear", "echo", "fetch", "fetching", "fetched"]
}

#[test]
fn test_use_typeahead_empty_candidates() {
    assert_eq!(use_typeahead(vec![], "test", 2), "");
}

#[test]
fn test_use_typeahead_below_limit() {
    assert_eq!(use_typeahead(candidates(), "e", 2), "");
}

#[test]
fn test_use_typeahead_at_limit() {
    assert_eq!(use_typeahead(candidates(), "ec", 2), "ho");
}

#[test]
fn test_use_typeahead_above_limit() {
    assert_eq!(use_typeahead(candidates(), "ech", 2), "o");
}

#[test]
fn test_use_typeahead_no_matches() {
    assert_eq!(use_typeahead(candidates(), "xyz", 2), "");
}

// exact single match, nothing to complete.
#[test]
fn test_use_typeahead_exact_match() {
    assert_eq!(use_typeahead(candidates(), "clear", 2), "");
}

// options are "fetch", "fetching", "fetched", so the longest common prefix is "fetch"
// thus, after typing "fe", the completion should be "tch"
#[test]
fn test_use_typeahead_common_prefix() {
    assert_eq!(use_typeahead(candidates(), "fe", 2), "tch");
}

#[test]
fn single_match_completes_whole_remainder() {
    assert_eq!(use_typeahead(candidates(), "cl", 2), "ear");
}

#[test]
fn short_input_with_higher_limit() {
    assert_eq!(use_typeahead(candidates(), "fetc", 5), "");
}
