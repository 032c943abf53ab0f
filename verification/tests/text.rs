use chat_gateway::text::contains_bytes;

#[test]
fn finds_a_part_at_every_place() {
    assert!(contains_bytes(b"abcdef", b"abc"));
    assert!(contains_bytes(b"abcdef", b"cde"));
    assert!(contains_bytes(b"abcdef", b"def"));
    assert!(contains_bytes(b"abcdef", b"abcdef"));
}

#[test]
fn does_not_find_what_is_not_there() {
    assert!(!contains_bytes(b"abcdef", b"abd"));
    assert!(!contains_bytes(b"abcdef", b"abcdefg"));
    assert!(!contains_bytes(b"", b"a"));
    assert!(!contains_bytes(b"aab", b"abb"));
}

#[test]
fn the_empty_part_is_in_everything() {
    assert!(contains_bytes(b"abc", b""));
    assert!(contains_bytes(b"", b""));
}

#[test]
fn finds_a_part_after_a_false_start() {
    assert!(contains_bytes(b"aaab", b"aab"));
    assert!(contains_bytes(b"/v1/v1/health", b"/v1/health"));
}
