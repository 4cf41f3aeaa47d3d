use openchat_native::bytes::append_bytes;
use openchat_native::bytes::bytes_equal;
use openchat_native::roster::add_each;
use openchat_native::roster::all_distinct;
use openchat_native::roster::clone_identities;
use openchat_native::roster::contains_identity;
use openchat_native::roster::position_of_identity;
use openchat_native::roster::remove_each;
use openchat_native::text::append_decimal;
use openchat_native::text::decode_text;

fn names(list: &[&str]) -> Vec<String> {
    list.iter().map(|s| s.to_string()).collect()
}

#[test]
fn contains_finds_exact_identities_only() {
    let members = names(&["alice", "bob"]);
    assert!(contains_identity(&members, "alice"));
    assert!(contains_identity(&members, "bob"));
    assert!(!contains_identity(&members, "Alice"));
    assert!(!contains_identity(&members, "ali"));
    assert!(!contains_identity(&members, ""));
    assert!(!contains_identity(&Vec::new(), "alice"));
}

#[test]
fn position_is_the_first_occurrence() {
    let members = names(&["a", "b", "c", "b"]);
    assert_eq!(position_of_identity(&members, "a"), Some(0));
    assert_eq!(position_of_identity(&members, "b"), Some(1));
    assert_eq!(position_of_identity(&members, "c"), Some(2));
    assert_eq!(position_of_identity(&members, "d"), None);
}

#[test]
fn all_distinct_detects_duplicates() {
    assert!(all_distinct(&names(&[])));
    assert!(all_distinct(&names(&["a"])));
    assert!(all_distinct(&names(&["a", "b", "c"])));
    assert!(!all_distinct(&names(&["a", "b", "a"])));
    assert!(!all_distinct(&names(&["a", "b", "b"])));
    assert!(!all_distinct(&names(&["a", "a"])));
}

#[test]
fn clone_identities_copies_in_order() {
    let members = names(&["x", "y", "z"]);
    assert_eq!(clone_identities(&members), members);
}

#[test]
fn remove_each_keeps_the_others_in_order() {
    let members = names(&["a", "b", "c", "d"]);
    assert_eq!(remove_each(&members, &names(&["b", "d"])), names(&["a", "c"]));
    assert_eq!(remove_each(&members, &names(&["x"])), members);
    assert_eq!(remove_each(&members, &names(&[])), members);
    assert_eq!(remove_each(&members, &names(&["d", "c", "b", "a"])), names(&[]));
}

#[test]
fn add_each_appends_only_new_identities() {
    let mut members = names(&["a", "b"]);
    add_each(&mut members, &names(&["c", "a", "d", "c"]));
    assert_eq!(members, names(&["a", "b", "c", "d"]));
    add_each(&mut members, &names(&[]));
    assert_eq!(members, names(&["a", "b", "c", "d"]));
}

#[test]
fn append_bytes_concatenates() {
    let mut buf = vec![1u8, 2];
    append_bytes(&mut buf, &[3, 4, 5]);
    assert_eq!(buf, vec![1, 2, 3, 4, 5]);
    append_bytes(&mut buf, &[]);
    assert_eq!(buf, vec![1, 2, 3, 4, 5]);
}

#[test]
fn bytes_equal_compares_length_and_content() {
    assert!(bytes_equal(&[], &[]));
    assert!(bytes_equal(&[1, 2, 3], &[1, 2, 3]));
    assert!(!bytes_equal(&[1, 2, 3], &[1, 2]));
    assert!(!bytes_equal(&[1, 2, 3], &[1, 2, 4]));
    assert!(!bytes_equal(&[], &[0]));
}

#[test]
fn decimal_has_no_leading_zeros() {
    let mut text = String::from("n=");
    append_decimal(&mut text, 0);
    assert_eq!(text, "n=0");
    let mut text = String::new();
    append_decimal(&mut text, 7);
    assert_eq!(text, "7");
    let mut text = String::new();
    append_decimal(&mut text, 10);
    assert_eq!(text, "10");
    let mut text = String::new();
    append_decimal(&mut text, 1234567890);
    assert_eq!(text, "1234567890");
}

#[test]
fn decimal_reaches_past_the_largest_epoch() {
    let mut text = String::new();
    append_decimal(&mut text, 18446744073709551615);
    assert_eq!(text, "18446744073709551615");
    let mut text = String::new();
    append_decimal(&mut text, 18446744073709551616);
    assert_eq!(text, "18446744073709551616");
    let mut text = String::new();
    append_decimal(&mut text, u128::MAX);
    assert_eq!(text, "340282366920938463463374607431768211455");
}

#[test]
fn decode_text_accepts_utf8() {
    assert_eq!(decode_text(vec![]), Ok(String::new()));
    assert_eq!(decode_text(vec![104, 105]), Ok(String::from("hi")));
    assert_eq!(decode_text(vec![195, 169]), Ok(String::from("é")));
    assert_eq!(
        decode_text(vec![0xf0, 0x9f, 0x98, 0x80]),
        Ok(String::from("\u{1F600}"))
    );
}

#[test]
fn decode_text_refuses_what_is_not_utf8() {
    assert!(decode_text(vec![0xff]).is_err());
    assert!(decode_text(vec![195]).is_err());
    assert!(decode_text(vec![104, 0x80]).is_err());
    assert!(decode_text(vec![0xed, 0xa0, 0x80]).is_err());
    assert!(!decode_text(vec![0xff]).unwrap_err().is_empty());
}
