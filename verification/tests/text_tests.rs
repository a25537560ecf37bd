use xatu::text::{chars_of, contains, decimal_text};

#[test]
fn chars_of_lists_every_character() {
    assert_eq!(chars_of(""), Vec::<char>::new());
    assert_eq!(chars_of("abc"), vec!['a', 'b', 'c']);
    assert_eq!(chars_of("é→x"), vec!['é', '→', 'x']);
}

#[test]
fn contains_finds_a_needle_anywhere() {
    assert!(contains("debug", "debug"));
    assert!(contains("xatu=debug", "debug"));
    assert!(contains("debug,info", "debug"));
    assert!(contains("a,debug,b", "debug"));
    assert!(contains("ddebug", "debug"));
}

#[test]
fn contains_rejects_what_is_not_there() {
    assert!(!contains("", "debug"));
    assert!(!contains("debu", "debug"));
    assert!(!contains("de,bug", "debug"));
    assert!(!contains("DEBUG", "debug"));
    assert!(!contains("gubed", "debug"));
}

#[test]
fn contains_finds_the_empty_needle_everywhere() {
    assert!(contains("", ""));
    assert!(contains("abc", ""));
}

#[test]
fn contains_agrees_with_the_standard_search() {
    let hays = ["", "a", "ab", "aab", "abab", "info", "warn,error", "ééé", "aé→b"];
    let needles = ["", "a", "b", "ab", "ba", "aab", "é", "→b", "error", "rn,e"];
    for hay in hays {
        for needle in needles {
            assert_eq!(contains(hay, needle), hay.contains(needle), "{:?} in {:?}", needle, hay);
        }
    }
}

#[test]
fn decimal_text_writes_signed_numbers() {
    assert_eq!(decimal_text(0), "0");
    assert_eq!(decimal_text(7), "7");
    assert_eq!(decimal_text(10), "10");
    assert_eq!(decimal_text(-1), "-1");
    assert_eq!(decimal_text(-5), "-5");
    assert_eq!(decimal_text(1200), "1200");
    assert_eq!(decimal_text(-1001), "-1001");
    assert_eq!(decimal_text(i32::MAX), "2147483647");
    assert_eq!(decimal_text(i32::MIN), "-2147483648");
}

#[test]
fn decimal_text_agrees_with_the_standard_formatting() {
    let mut n: i32 = -100_000;
    while n <= 100_000 {
        assert_eq!(decimal_text(n), n.to_string());
        n += 37;
    }
}
