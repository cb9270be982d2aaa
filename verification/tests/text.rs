use guild_steward::text::{push_decimal_i64, push_decimal_u64};

#[test]
fn decimal_of_unsigned_numbers() {
    for n in [0u64, 1, 9, 10, 11, 99, 100, 101, 1_000_000, 1_431_648_000, u64::MAX - 1, u64::MAX] {
        let mut out = String::from("n=");
        push_decimal_u64(&mut out, n);
        assert_eq!(out, format!("n={n}"));
    }
}

#[test]
fn decimal_of_signed_numbers() {
    for n in [0i64, 1, -1, 9, -9, 10, -10, 12345, -12345, i64::MAX, i64::MIN, i64::MIN + 1] {
        let mut out = String::new();
        push_decimal_i64(&mut out, n);
        assert_eq!(out, n.to_string());
    }
}

#[test]
fn decimal_is_appended_after_what_is_there() {
    let mut out = String::from("a-");
    push_decimal_u64(&mut out, 7);
    push_decimal_i64(&mut out, -7);
    assert_eq!(out, "a-7-7");
}
