use navitime_mcp::decimal::{i64_to_string, push_i64, push_u64};

#[test]
fn decimal_text_of_integers() {
    assert_eq!(i64_to_string(0), "0");
    assert_eq!(i64_to_string(7), "7");
    assert_eq!(i64_to_string(10), "10");
    assert_eq!(i64_to_string(1800), "1800");
    assert_eq!(i64_to_string(-42), "-42");
    assert_eq!(i64_to_string(i64::MAX), i64::MAX.to_string());
    assert_eq!(i64_to_string(i64::MIN), i64::MIN.to_string());
}

#[test]
fn decimal_text_appends() {
    let mut s = String::from("n=");
    push_u64(&mut s, u64::MAX);
    assert_eq!(s, format!("n={}", u64::MAX));
    let mut s = String::from("x");
    push_i64(&mut s, -9);
    assert_eq!(s, "x-9");
}

#[test]
fn decimal_text_reads_back() {
    for n in [0u64, 1, 9, 10, 99, 100, 12345, 4294967296, u64::MAX] {
        let mut s = String::new();
        push_u64(&mut s, n);
        assert!(s.chars().all(|c| c.is_ascii_digit()));
        assert_eq!(s.parse::<u64>().unwrap(), n);
    }
}
