use nstimes::text::{chars_of, contains_chars, int_to_string, nat_to_string, text_precedes};

#[test]
fn decimal_of_naturals() {
    assert_eq!(nat_to_string(0), "0");
    assert_eq!(nat_to_string(7), "7");
    assert_eq!(nat_to_string(10), "10");
    assert_eq!(nat_to_string(8400058), "8400058");
    assert_eq!(nat_to_string(u64::MAX), "18446744073709551615");
}

#[test]
fn decimal_of_integers() {
    assert_eq!(int_to_string(0), "0");
    assert_eq!(int_to_string(-1), "-1");
    assert_eq!(int_to_string(2026), "2026");
    assert_eq!(int_to_string(-9000), "-9000");
    assert_eq!(int_to_string(i64::MAX), "9223372036854775807");
    assert_eq!(int_to_string(i64::MIN), "-9223372036854775808");
}

#[test]
fn chars_in_order() {
    assert_eq!(chars_of("abc"), vec!['a', 'b', 'c']);
    assert_eq!(chars_of(""), Vec::<char>::new());
    assert_eq!(chars_of("é€😀"), vec!['é', '€', '😀']);
}

#[test]
fn substring_search() {
    let hay = chars_of("amsterdam centraal");
    assert!(contains_chars(&hay, &chars_of("")));
    assert!(contains_chars(&hay, &chars_of("amsterdam")));
    assert!(contains_chars(&hay, &chars_of("centraal")));
    assert!(contains_chars(&hay, &chars_of("m c")));
    assert!(contains_chars(&hay, &chars_of("amsterdam centraal")));
    assert!(!contains_chars(&hay, &chars_of("amsterdam centraal ")));
    assert!(!contains_chars(&hay, &chars_of("utrecht")));
    assert!(!contains_chars(&hay, &chars_of("aal ")));
    assert!(contains_chars(&chars_of(""), &chars_of("")));
    assert!(!contains_chars(&chars_of(""), &chars_of("a")));
    assert!(contains_chars(&chars_of("aab"), &chars_of("ab")));
}

#[test]
fn lexicographic_order_matches_std() {
    let words = ["", "a", "A", "ab", "abc", "abd", "b", "Z", "é", "z", "\u{ffff}", "\u{10000}", "a-b", "a b"];
    for a in words {
        for b in words {
            assert_eq!(text_precedes(a, b), a < b, "{:?} before {:?}", a, b);
        }
    }
}
