use acpitool::text::i32_to_signed_tenths;
use acpitool::text::u64_to_dec;
use acpitool::text::u64_to_pad2;
use acpitool::text::u64_to_tenths;

#[test]
fn decimal_rendering() {
    assert_eq!(u64_to_dec(0), "0");
    assert_eq!(u64_to_dec(7), "7");
    assert_eq!(u64_to_dec(10), "10");
    assert_eq!(u64_to_dec(90), "90");
    assert_eq!(u64_to_dec(5000), "5000");
    assert_eq!(u64_to_dec(u64::MAX), "18446744073709551615");
}

#[test]
fn padded_rendering() {
    assert_eq!(u64_to_pad2(0), "00");
    assert_eq!(u64_to_pad2(9), "09");
    assert_eq!(u64_to_pad2(10), "10");
    assert_eq!(u64_to_pad2(59), "59");
    assert_eq!(u64_to_pad2(100), "100");
}

#[test]
fn tenths_rendering() {
    assert_eq!(u64_to_tenths(0), "0.0");
    assert_eq!(u64_to_tenths(5), "0.5");
    assert_eq!(u64_to_tenths(555), "55.5");
    assert_eq!(u64_to_tenths(1000), "100.0");
}

#[test]
fn signed_tenths_rendering() {
    assert_eq!(i32_to_signed_tenths(421), "42.1");
    assert_eq!(i32_to_signed_tenths(0), "0.0");
    assert_eq!(i32_to_signed_tenths(-53), "-5.3");
    assert_eq!(i32_to_signed_tenths(-1000), "-100.0");
    assert_eq!(i32_to_signed_tenths(i32::MIN), "-214748364.8");
}
