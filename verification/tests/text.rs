use bigneon::text::{chars_of, contains_text, copy_opt, join2, join3, opt_is, text_eq, text_less};

#[test]
fn texts_are_compared_by_what_they_hold() {
    assert!(text_eq("abc", "abc"));
    assert!(!text_eq("abc", "abd"));
    assert!(!text_eq("abc", "ab"));
    assert!(text_eq("", ""));
    assert!(opt_is(&Some("a".to_string()), "a"));
    assert!(!opt_is(&Some("a".to_string()), "b"));
    assert!(!opt_is(&None, ""));
    assert_eq!(copy_opt(&Some("x".to_string())), Some("x".to_string()));
    assert_eq!(copy_opt(&None), None);
}

#[test]
fn texts_are_joined_in_order() {
    assert_eq!(join2("ab", "cd"), "abcd");
    assert_eq!(join3("a", "", "c"), "ac");
    assert_eq!(chars_of("héé"), vec!['h', 'é', 'é']);
    assert!(chars_of("").is_empty());
}

#[test]
fn a_text_holds_its_parts() {
    assert!(contains_text("concert hall", "hall"));
    assert!(contains_text("concert hall", "concert"));
    assert!(contains_text("concert hall", "t h"));
    assert!(contains_text("concert hall", ""));
    assert!(contains_text("", ""));
    assert!(contains_text("héllo", "él"));
    assert!(!contains_text("concert hall", "halls"));
    assert!(!contains_text("concert hall", "Hall"));
    assert!(!contains_text("", "a"));
    assert!(!contains_text("ab", "abc"));
    assert!(contains_text("aab", "ab"));
}

#[test]
fn texts_are_ordered_as_in_a_dictionary() {
    let pairs = [
        ("", ""),
        ("", "a"),
        ("a", ""),
        ("a", "b"),
        ("b", "a"),
        ("ab", "abc"),
        ("abc", "ab"),
        ("abc", "abd"),
        ("Zebra", "apple"),
        ("apple", "Apple"),
        ("é", "z"),
        ("same", "same"),
    ];
    for (a, b) in pairs {
        assert_eq!(text_less(a, b), a < b, "{:?} < {:?}", a, b);
    }
}
