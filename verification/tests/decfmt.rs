use anchor_registry::decfmt::{format_fixed8, u64_to_dec_string, u64_to_be_bytes, Fixed8};

#[test]
fn test_u64_to_dec_string_exact() {
    assert_eq!(u64_to_dec_string(0), "0");
    assert_eq!(u64_to_dec_string(10), "10");
    assert_eq!(u64_to_dec_string(90210), "90210");
    assert_eq!(u64_to_dec_string(u64::MAX), "18446744073709551615");
}

#[test]
fn test_format_fixed8_exact() {
    assert_eq!(format_fixed8(Fixed8 { units: 0 }), "0.00000000");
    assert_eq!(format_fixed8(Fixed8 { units: 92_000_000 }), "0.92000000");
    assert_eq!(format_fixed8(Fixed8 { units: 123 }), "0.00000123");
    assert_eq!(format_fixed8(Fixed8 { units: 150_000_000 }), "1.50000000");
    assert_eq!(format_fixed8(Fixed8 { units: u64::MAX }), "184467440737.09551615");
}

#[test]
fn test_u64_to_be_bytes_matches_std() {
    assert_eq!(u64_to_be_bytes(0), 0u64.to_be_bytes().to_vec());
    assert_eq!(u64_to_be_bytes(12345), 12345u64.to_be_bytes().to_vec());
    assert_eq!(u64_to_be_bytes(u64::MAX), u64::MAX.to_be_bytes().to_vec());
}
