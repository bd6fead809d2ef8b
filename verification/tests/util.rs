use swapbytes::util::{bytes_gt, format_dm_key, text_eq, text_gt};

#[test]
fn dm_key_puts_the_larger_identity_first() {
    assert_eq!(format_dm_key("b".to_string(), "a".to_string()), "b_a");
    assert_eq!(format_dm_key("a".to_string(), "b".to_string()), "b_a");
}

#[test]
fn dm_key_is_the_same_for_both_peers() {
    let a = "12D3KooWDpJ7As7BWAwRMfu1VU2WCqNjvq387JEYKDBj4kx6nXTN".to_string();
    let b = "12D3KooWPjceQrSwdWXPyLLeABRXmuqt69Rg3sBYbU1Nft9HyQ6X".to_string();
    let ab = format_dm_key(a.clone(), b.clone());
    let ba = format_dm_key(b.clone(), a.clone());
    assert_eq!(ab, ba);
    assert_eq!(ab, format!("{}_{}", b, a));
}

#[test]
fn dm_key_of_a_peer_with_itself() {
    assert_eq!(format_dm_key("peer".to_string(), "peer".to_string()), "peer_peer");
}

#[test]
fn dm_key_orders_a_prefix_before_its_extension() {
    assert_eq!(format_dm_key("ab".to_string(), "abc".to_string()), "abc_ab");
    assert_eq!(format_dm_key("abc".to_string(), "ab".to_string()), "abc_ab");
    assert_eq!(format_dm_key("".to_string(), "x".to_string()), "x_");
}

#[test]
fn text_order_follows_the_bytes() {
    assert!(text_gt("b", "a"));
    assert!(!text_gt("a", "b"));
    assert!(!text_gt("a", "a"));
    assert!(text_gt("é", "z"));
    assert!(text_gt("ab", "a"));
    assert!(!text_gt("", ""));
    assert_eq!(text_gt("Zebra", "apple"), "Zebra" > "apple");
    assert!(bytes_gt(&[2, 0], &[1, 255]));
    assert!(!bytes_gt(&[1, 255], &[2, 0]));
}

#[test]
fn text_equality_compares_all_characters() {
    assert!(text_eq("room", "room"));
    assert!(!text_eq("room", "rooms"));
    assert!(!text_eq("room", "roon"));
    assert!(text_eq("", ""));
}

#[test]
fn the_order_of_texts_is_that_of_strings() {
    let samples = [
        "", "a", "A", "ab", "abc", "abd", "b", "Z", "z", "é", "e", "ß", "日本", "日", "😀", "~",
        "12D3KooWDpJ7As7BWAwRMfu1VU2WCqNjvq387JEYKDBj4kx6nXTN",
        "12D3KooWPjceQrSwdWXPyLLeABRXmuqt69Rg3sBYbU1Nft9HyQ6X",
        "QmYyQSo1c1Ym7orWxLYvCrM2EmxFTANf8wXmmE7DWjhx5N",
    ];
    for a in samples {
        for b in samples {
            assert_eq!(text_gt(a, b), a > b, "{:?} {:?}", a, b);
            assert_eq!(text_eq(a, b), a == b, "{:?} {:?}", a, b);
            assert_eq!(bytes_gt(a.as_bytes(), b.as_bytes()), a.as_bytes() > b.as_bytes());
            let key = format_dm_key(a.to_string(), b.to_string());
            let expected = if a > b { format!("{}_{}", a, b) } else { format!("{}_{}", b, a) };
            assert_eq!(key, expected);
            assert_eq!(key, format_dm_key(b.to_string(), a.to_string()));
        }
    }
}
