use botchling::text::{parse_unsigned, push_decimal};

#[test]
fn decimal_text() {
    let mut s = String::from("n=");
    push_decimal(&mut s, 0);
    assert_eq!(s, "n=0");
    let mut t = String::new();
    push_decimal(&mut t, u64::MAX);
    assert_eq!(t, "18446744073709551615");
    let mut u = String::new();
    push_decimal(&mut u, 1_000);
    assert_eq!(u, "1000");
}

#[test]
fn parse_unsigned_follows_std() {
    let cases = ["", "+", "-", "-0", "0", "+7", "++7", "42", "65535", "65536", "1_0", "\u{663}", "99999999999999999999"];
    for c in cases {
        assert_eq!(parse_unsigned(c, u16::MAX as u64), c.parse::<u16>().ok().map(|v| v as u64), "{c:?}");
        assert_eq!(parse_unsigned(c, u64::MAX), c.parse::<u64>().ok(), "{c:?}");
    }
}

#[test]
fn decimal_reads_back() {
    for n in [0u64, 9, 10, 99, 12345, u64::MAX] {
        let mut s = String::new();
        push_decimal(&mut s, n);
        assert_eq!(parse_unsigned(&s, u64::MAX), Some(n));
    }
}
