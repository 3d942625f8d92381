use fraud_guard::text::{integer_to_string, is_all_digits, joined, natural_to_string, same_text};

#[test]
fn digits() {
    assert!(is_all_digits(""));
    assert!(is_all_digits("0123456789"));
    assert!(!is_all_digits("12a"));
    assert!(!is_all_digits("/"));
    assert!(!is_all_digits(":"));
    assert!(!is_all_digits("\u{0661}"));
}

#[test]
fn texts() {
    assert_eq!(joined("ab", "cd"), "abcd");
    assert!(same_text("é", "é"));
    assert!(!same_text("a", "ab"));
}

#[test]
fn numbers() {
    for n in [0, 9, 10, 99, 100, 1234567890, u64::MAX] {
        assert_eq!(natural_to_string(n), n.to_string());
    }
    for n in [0, 7, -7, 10, -10, i64::MAX, i64::MIN] {
        assert_eq!(integer_to_string(n), n.to_string());
    }
}
