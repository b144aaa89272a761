use maud_lsp::metabolic::debug_list;
use maud_lsp::text::{join, line_count_of_prefix, magnitude_text, str_eq, u64_to_dec};

#[test]
fn prefix_line_count_is_one_based() {
    // a metabolite declared on the physical 3rd line resolves to a
    // count of 3; a caller needing the 0-based editor line subtracts
    // one to get 2
    let text = "[[metabolite]]\n# a comment\nid = \"g6p\"\n";
    let offset = text.find("g6p").unwrap();
    let count = line_count_of_prefix(text, offset);
    assert_eq!(count, 3);
    assert_eq!(count - 1, 2);
}

#[test]
fn prefix_line_count_edges() {
    assert_eq!(line_count_of_prefix("", 0), 0);
    assert_eq!(line_count_of_prefix("abc", 0), 0);
    assert_eq!(line_count_of_prefix("abc", 2), 1);
    // a prefix ending exactly on a newline still counts one line
    assert_eq!(line_count_of_prefix("abc\ndef", 4), 1);
    assert_eq!(line_count_of_prefix("abc\ndef", 5), 2);
}

#[test]
fn decimal_rendering() {
    assert_eq!(u64_to_dec(0), "0");
    assert_eq!(u64_to_dec(7), "7");
    assert_eq!(u64_to_dec(12345), "12345");
    assert_eq!(u64_to_dec(65535), "65535");
}

#[test]
fn string_equality_is_by_content() {
    assert!(str_eq("abc", "abc"));
    assert!(!str_eq("abc", "abd"));
    assert!(!str_eq("abc", "ab"));
    assert!(str_eq("", ""));
}

#[test]
fn magnitude_strips_one_leading_minus() {
    assert_eq!(magnitude_text("-2.5"), "2.5");
    assert_eq!(magnitude_text("2.5"), "2.5");
    assert_eq!(magnitude_text(""), "");
}

#[test]
fn joining_and_listing() {
    let parts = vec!["a".to_string(), "b".to_string(), "c".to_string()];
    assert_eq!(join(&parts, " + "), "a + b + c");
    assert_eq!(join(&vec![], " + "), "");
    assert_eq!(debug_list(&parts), "[\"a\", \"b\", \"c\"]");
    assert_eq!(debug_list(&vec![]), "[]");
}
