use mpsc::text::decimal_text;
use mpsc::text::describe;

#[test]
fn single_digits() {
    assert_eq!(decimal_text(0), "0");
    assert_eq!(decimal_text(1), "1");
    assert_eq!(decimal_text(2), "2");
    assert_eq!(decimal_text(3), "3");
    assert_eq!(decimal_text(4), "4");
    assert_eq!(decimal_text(5), "5");
    assert_eq!(decimal_text(6), "6");
    assert_eq!(decimal_text(7), "7");
    assert_eq!(decimal_text(8), "8");
    assert_eq!(decimal_text(9), "9");
}

#[test]
fn several_digits() {
    assert_eq!(decimal_text(10), "10");
    assert_eq!(decimal_text(99), "99");
    assert_eq!(decimal_text(100), "100");
    assert_eq!(decimal_text(4399), "4399");
    assert_eq!(decimal_text(1_000_000), "1000000");
}

#[test]
fn decimal_agrees_with_std() {
    let mut n: usize = 1;
    while n < usize::MAX / 7 {
        assert_eq!(decimal_text(n), format!("{}", n));
        assert_eq!(decimal_text(n - 1), format!("{}", n - 1));
        n *= 7;
    }
    assert_eq!(decimal_text(usize::MAX), format!("{}", usize::MAX));
}

#[test]
fn description_has_count_then_queue() {
    assert_eq!(describe(1, "[]"), "Sender: 1, Deque: []");
    assert_eq!(describe(12, "[443, 4434]"), "Sender: 12, Deque: [443, 4434]");
    assert_eq!(describe(0, ""), "Sender: 0, Deque: ");
}
