use peerdash::text::push_numeral;

fn numeral(n: u128, base: u8) -> String {
    let mut out = String::new();
    push_numeral(&mut out, n, base);
    out
}

#[test]
fn decimal_digits() {
    assert_eq!(numeral(0, 10), "0");
    assert_eq!(numeral(7, 10), "7");
    assert_eq!(numeral(10, 10), "10");
    assert_eq!(numeral(65535, 10), "65535");
    assert_eq!(numeral(1_000_000_007, 10), "1000000007");
    assert_eq!(numeral(u64::MAX as u128, 10), "18446744073709551615");
    assert_eq!(numeral(u128::MAX, 10), "340282366920938463463374607431768211455");
}

#[test]
fn hexadecimal_digits_are_lower_case() {
    assert_eq!(numeral(0, 16), "0");
    assert_eq!(numeral(10, 16), "a");
    assert_eq!(numeral(255, 16), "ff");
    assert_eq!(numeral(0xdb8, 16), "db8");
    assert_eq!(numeral(0xabcdef, 16), "abcdef");
    assert_eq!(numeral(0x1000, 16), "1000");
}

#[test]
fn other_bases() {
    assert_eq!(numeral(5, 2), "101");
    assert_eq!(numeral(8, 8), "10");
    assert_eq!(numeral(0, 2), "0");
}

#[test]
fn digits_are_appended() {
    let mut out = String::from("port ");
    push_numeral(&mut out, 443, 10);
    assert_eq!(out, "port 443");
    push_numeral(&mut out, 0, 10);
    assert_eq!(out, "port 4430");
}

#[test]
fn numerals_are_those_of_the_formatter() {
    for n in (0..200_000u128).chain([u32::MAX as u128, u64::MAX as u128, u128::MAX]) {
        assert_eq!(numeral(n, 10), format!("{}", n));
        assert_eq!(numeral(n, 16), format!("{:x}", n));
    }
}
