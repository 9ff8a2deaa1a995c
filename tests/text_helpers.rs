use textedit::text::{char_count, decimal_len, insert_at, remove_at, spaces, substring, to_decimal};

#[test]
fn decimal_notation() {
    assert_eq!(to_decimal(0), "0");
    assert_eq!(to_decimal(7), "7");
    assert_eq!(to_decimal(10), "10");
    assert_eq!(to_decimal(1234567), "1234567");
    assert_eq!(to_decimal(usize::MAX), usize::MAX.to_string());
    assert_eq!(decimal_len(0), 1);
    assert_eq!(decimal_len(99), 2);
    assert_eq!(decimal_len(100), 3);
}

#[test]
fn character_edits() {
    let s = "añb".to_string();
    assert_eq!(char_count(&s), 3);
    assert_eq!(insert_at(&s, 3, 'c'), "añbc");
    assert_eq!(insert_at(&s, 0, 'c'), "cañb");
    assert_eq!(remove_at(&s, 1), "ab");
    assert_eq!(substring(&s, 1, 3), "ñb");
    assert_eq!(spaces(3), "   ");
    assert_eq!(spaces(0), "");
}
