use swapbytes::text::{
    clone_list, contains_text, format_join, format_plain, format_rated, format_welcome,
    join_lines, list_contains, push_text,
};

#[test]
fn the_welcome_line_names_the_room() {
    assert_eq!(format_welcome("Global"), "✨ Welcome to the Global chat!");
    assert_eq!(format_welcome(""), "✨ Welcome to the  chat!");
}

#[test]
fn the_join_line_names_the_peer() {
    assert_eq!(format_join("Bob"), "😀 Chatting with Bob");
}

#[test]
fn a_plain_line_has_name_colon_text() {
    assert_eq!(format_plain("You", "hello"), "You: hello");
}

#[test]
fn a_rated_line_carries_the_glyph_of_the_rating() {
    assert_eq!(format_rated(0, "Alice", "hello"), "Alice: hello");
    assert_eq!(format_rated(1, "Alice", "hello"), "😇 Alice: hello");
    assert_eq!(format_rated(7, "Alice", "hello"), "😇 Alice: hello");
    assert_eq!(format_rated(-1, "Alice", "hello"), "👿 Alice: hello");
    assert_eq!(format_rated(i32::MIN, "Alice", "hello"), "👿 Alice: hello");
}

#[test]
fn a_list_holds_what_was_put_in_it() {
    let list = vec!["Global".to_string(), "COSC473".to_string()];
    assert!(list_contains(&list, "Global"));
    assert!(list_contains(&list, "COSC473"));
    assert!(!list_contains(&list, "global"));
    assert!(!list_contains(&Vec::new(), "Global"));
    assert_eq!(clone_list(&list), list);
}

#[test]
fn a_text_contains_its_parts() {
    assert!(contains_text("/ip4/127.0.0.1/udp/4001/quic-v1", "/ip4/127.0.0.1/udp"));
    assert!(!contains_text("/ip4/192.168.1.5/udp/4001/quic-v1", "/ip4/127.0.0.1/udp"));
    assert!(!contains_text("/ip4/127.0.0.1/tcp/4001", "/ip4/127.0.0.1/udp"));
    assert!(contains_text("abc", ""));
    assert!(contains_text("", ""));
    assert!(!contains_text("", "a"));
    assert!(contains_text("abc", "abc"));
    assert!(contains_text("xabc", "abc"));
    assert!(!contains_text("ab", "abc"));
    assert!(contains_text("aab", "ab"));
}

#[test]
fn lines_are_joined_by_line_feeds() {
    assert_eq!(join_lines(&Vec::new()), "");
    assert_eq!(join_lines(&vec!["one".to_string()]), "one");
    assert_eq!(join_lines(&vec!["one".to_string(), "two".to_string()]), "one\ntwo");
    assert_eq!(
        join_lines(&vec!["".to_string(), "two".to_string(), "".to_string()]),
        "\ntwo\n"
    );
}

#[test]
fn a_text_joins_the_end_of_a_list() {
    let mut list = vec!["a".to_string()];
    push_text(&mut list, "b".to_string());
    assert_eq!(list, vec!["a", "b"]);
}

#[test]
fn containment_is_that_of_strings() {
    let samples = ["", "a", "ab", "ba", "aab", "abab", "é", "ée", "e", "/ip4/127.0.0.1/udp", "日本語", "本"];
    for hay in samples {
        for needle in samples {
            assert_eq!(contains_text(hay, needle), hay.contains(needle), "{:?} {:?}", hay, needle);
        }
    }
}
