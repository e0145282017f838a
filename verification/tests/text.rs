use libav_sys::text::{join_with, same_text, starts_with, without_prefix};

#[test]
fn same_text_tells_equal_from_different() {
    assert!(same_text("postproc", "postproc"));
    assert!(!same_text("postproc", "postprocess"));
    assert!(!same_text("", "a"));
    assert!(same_text("", ""));
}

#[test]
fn starts_with_finds_a_prefix() {
    assert!(starts_with("libavcodec", "lib"));
    assert!(starts_with("lib", "lib"));
    assert!(starts_with("anything", ""));
}

#[test]
fn starts_with_rejects_what_is_no_prefix() {
    assert!(!starts_with("li", "lib"));
    assert!(!starts_with("xlibavcodec", "lib"));
    assert!(!starts_with("Libavcodec", "lib"));
    assert!(!starts_with("", "lib"));
}

#[test]
fn without_prefix_counts_characters() {
    assert_eq!(without_prefix("libavcodec", 3), "avcodec");
    assert_eq!(without_prefix("lib", 3), "");
    assert_eq!(without_prefix("äöüx", 3), "x");
    assert_eq!(without_prefix("abc", 0), "abc");
}

#[test]
fn join_with_puts_the_separator_between_neighbours() {
    let pieces = vec!["a".to_string(), "b".to_string(), "c".to_string()];
    assert_eq!(join_with(&pieces, "\n\n"), "a\n\nb\n\nc");
}

#[test]
fn join_with_of_one_piece_is_the_piece() {
    assert_eq!(join_with(&vec!["only".to_string()], ", "), "only");
}

#[test]
fn join_with_of_nothing_is_empty() {
    assert_eq!(join_with(&Vec::new(), ", "), "");
}

#[test]
fn join_with_keeps_empty_pieces() {
    let pieces = vec!["".to_string(), "".to_string()];
    assert_eq!(join_with(&pieces, "-"), "-");
}
