use lotp::codec::decode_base32;
use lotp::error::{Error, ErrorType};
use lotp::hotp::{
    check_6_digit_hotp, check_hotp, generate_6_digit_hotp, generate_6_digit_hotp_string,
    generate_7_digit_hotp_string, generate_8_digit_hotp, generate_8_digit_hotp_string,
    generate_hotp, generate_hotp_string,
};
use lotp::totp::{check_6_digit_totp, check_totp, generate_6_digit_totp, generate_totp};

// The RFC 4226 test secret: the base-32 encoding of the ASCII key
// "12345678901234567890".
const RFC4226_SECRET: &str = "GEZDGNBVGY3TQOJQGEZDGNBVGY3TQOJQ";

#[test]
fn test_rfc4226_vectors_6_digit() {
    let secret = String::from(RFC4226_SECRET);
    let expected: [u64; 10] = [
        755224, 287082, 359152, 969429, 338314, 254676, 287922, 162583, 399871, 520489,
    ];
    for (counter, want) in expected.iter().enumerate() {
        let got = generate_6_digit_hotp(&(counter as u64), &secret).unwrap();
        assert_eq!(got, *want);
    }
}

#[test]
fn test_rfc4226_vector_7_digit_zero_padded() {
    let secret = String::from(RFC4226_SECRET);
    // The truncated value at counter 4 is 1640338314, so the 7-digit code is
    // 338314 and its string form carries a leading zero.
    let s = generate_7_digit_hotp_string(&4u64, &secret).unwrap();
    assert_eq!(s, "0338314");
}

#[test]
fn test_rfc4226_vector_8_digit() {
    let secret = String::from(RFC4226_SECRET);
    // The truncated value at counter 3 is 1726969429.
    assert_eq!(generate_8_digit_hotp(&3u64, &secret).unwrap(), 26969429);
    assert_eq!(
        generate_8_digit_hotp_string(&3u64, &secret).unwrap(),
        "26969429"
    );
}

#[test]
fn test_decode_base32_exact_bytes() {
    let secret = String::from("GEZDGNBVGY3TQOJQ");
    let bytes = decode_base32(&secret).unwrap();
    assert_eq!(bytes, b"1234567890".to_vec());
    // Decoding is case-insensitive in the underlying codec.
    let lower = String::from("gezdgnbvgy3tqojq");
    assert_eq!(decode_base32(&lower).unwrap(), b"1234567890".to_vec());
}

#[test]
fn test_decode_base32_rejects_invalid() {
    let bad = String::from("not-base32-!!!");
    let e = decode_base32(&bad).unwrap_err();
    assert!(e.error_type() == ErrorType::NonBase32);
}

#[test]
fn test_generate_is_deterministic() {
    let secret = String::from("abcdef234567");
    let a = generate_6_digit_hotp(&397u64, &secret).unwrap();
    let b = generate_6_digit_hotp(&397u64, &secret).unwrap();
    assert_eq!(a, b);
    let sa = generate_6_digit_hotp_string(&397u64, &secret).unwrap();
    let sb = generate_6_digit_hotp_string(&397u64, &secret).unwrap();
    assert_eq!(sa, sb);
}

#[test]
fn test_generate_below_modulus() {
    let secret = String::from("abcdef234567");
    for counter in 0u64..20 {
        assert!(generate_hotp(&counter, &secret, 6).unwrap() < 1_000_000);
        assert!(generate_hotp(&counter, &secret, 7).unwrap() < 10_000_000);
        assert!(generate_hotp(&counter, &secret, 8).unwrap() < 100_000_000);
    }
}

#[test]
fn test_string_form_matches_numeric_form() {
    let secret = String::from("abcdef234567");
    for counter in 0u64..20 {
        let n = generate_hotp(&counter, &secret, 6).unwrap();
        let s = generate_hotp_string(&counter, &secret, 6).unwrap();
        assert_eq!(s.len(), 6);
        assert!(s.chars().all(|c| c.is_ascii_digit()));
        assert_eq!(s.parse::<u64>().unwrap(), n);
    }
}

#[test]
fn test_check_hotp_offset_zero_exact_match() {
    let secret = String::from("abcdef234567");
    let code = generate_6_digit_hotp_string(&397u64, &secret).unwrap();
    assert!(check_6_digit_hotp(&397u64, &secret, &0u64, &code).unwrap());
    // A candidate of the wrong width can match no code at all.
    let short = String::from("12345");
    assert!(!check_6_digit_hotp(&397u64, &secret, &0u64, &short).unwrap());
}

#[test]
fn test_check_hotp_underflow_clamps_to_zero() {
    let secret = String::from("abcdef234567");
    // The window around counter 2 with offset 10 underflows and must clamp
    // to [0, 12], so the code generated at counter 0 verifies.
    let code = generate_6_digit_hotp_string(&0u64, &secret).unwrap();
    assert!(check_6_digit_hotp(&2u64, &secret, &10u64, &code).unwrap());
}

#[test]
fn test_check_hotp_overflow_clamps_to_max() {
    let secret = String::from("abcdef234567");
    // The window around u64::MAX - 1 with offset 10 overflows and must clamp
    // to [u64::MAX - 11, u64::MAX], so the code at u64::MAX verifies.
    let code = generate_6_digit_hotp_string(&u64::MAX, &secret).unwrap();
    assert!(check_6_digit_hotp(&(u64::MAX - 1), &secret, &10u64, &code).unwrap());
}

#[test]
fn test_check_hotp_window_scenario() {
    let secret = String::from("abcdef234567");
    // The code generated at counter 400 lies inside [391, 403] but outside
    // [396, 398].
    let code = generate_6_digit_hotp_string(&400u64, &secret).unwrap();
    assert!(check_6_digit_hotp(&397u64, &secret, &6u64, &code).unwrap());
    assert!(!check_6_digit_hotp(&397u64, &secret, &1u64, &code).unwrap());
}

#[test]
fn test_totp_matches_hotp_at_same_instant() {
    let secret = String::from("abcdef234567");
    // A step of 10^9 seconds makes a step boundary between the two samples
    // all but impossible.
    let duration: u64 = 1_000_000_000;
    let totp = generate_6_digit_totp(&secret, &duration).unwrap();
    let now = std::time::SystemTime::now()
        .duration_since(std::time::UNIX_EPOCH)
        .unwrap()
        .as_secs();
    let hotp = generate_6_digit_hotp(&(now / duration), &secret).unwrap();
    assert_eq!(totp, hotp);
}

#[test]
fn test_totp_zero_duration_is_invalid_counter() {
    let secret = String::from("abcdef234567");
    let e = generate_6_digit_totp(&secret, &0u64).unwrap_err();
    assert!(e.error_type() == ErrorType::InvalidCounter);
    let e = generate_totp(&secret, &0u64, 8).unwrap_err();
    assert!(e.error_type() == ErrorType::InvalidCounter);
    let cmp = String::from("123456");
    let e = check_6_digit_totp(&secret, &1u16, &cmp, &0u64).unwrap_err();
    assert!(e.error_type() == ErrorType::InvalidCounter);
}

#[test]
fn test_totp_window_overflow_is_invalid_offset() {
    let secret = String::from("abcdef234567");
    let cmp = String::from("123456");
    let e = check_6_digit_totp(&secret, &2u16, &cmp, &u64::MAX).unwrap_err();
    assert!(e.error_type() == ErrorType::InvalidOffset);
    let e = check_totp(&secret, &3u16, &cmp, &u64::MAX, 7).unwrap_err();
    assert!(e.error_type() == ErrorType::InvalidOffset);
}

#[test]
fn test_totp_accepts_current_code() {
    let secret = String::from("abcdef234567");
    let duration: u64 = 1_000_000_000;
    let now = std::time::SystemTime::now()
        .duration_since(std::time::UNIX_EPOCH)
        .unwrap()
        .as_secs();
    let code = generate_6_digit_hotp_string(&(now / duration), &secret).unwrap();
    assert!(check_6_digit_totp(&secret, &1u16, &code, &duration).unwrap());
}

#[test]
fn test_invalid_secret_fails_everywhere() {
    let bad = String::from("not-base32-!!!");
    let cmp = String::from("123456");
    let e = generate_6_digit_hotp(&0u64, &bad).unwrap_err();
    assert!(e.error_type() == ErrorType::NonBase32);
    let e = generate_6_digit_hotp_string(&0u64, &bad).unwrap_err();
    assert!(e.error_type() == ErrorType::NonBase32);
    let e = check_6_digit_hotp(&0u64, &bad, &5u64, &cmp).unwrap_err();
    assert!(e.error_type() == ErrorType::NonBase32);
    let e = check_hotp(&0u64, &bad, &0u64, &cmp, 8).unwrap_err();
    assert!(e.error_type() == ErrorType::NonBase32);
    let e = generate_6_digit_totp(&bad, &30u64).unwrap_err();
    assert!(e.error_type() == ErrorType::NonBase32);
    let e = check_6_digit_totp(&bad, &1u16, &cmp, &30u64).unwrap_err();
    assert!(e.error_type() == ErrorType::NonBase32);
}

#[test]
fn test_error_accessors() {
    let e = Error::new(ErrorType::InvalidOffset, "too large");
    assert!(e.error_type() == ErrorType::InvalidOffset);
    assert_eq!(e.description(), "too large");
}
