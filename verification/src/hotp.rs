use vstd::prelude::*;

use crate::codec::{base32_decode, decode_base32};
use crate::decimal::{
    chars_value, decimal_chars, decimal_string, is_digit_char, lemma_decimal_chars_digits,
    lemma_decimal_chars_len, lemma_decimal_chars_value, lemma_pow10_code_widths, lemma_pow10_pos,
    pow10,
};
use crate::error::{kind_text, Error, ErrorType};
use crate::mac::{be_bytes_of_u64, dynamic_truncate, hmac_sha1, hmac_sha1_tag, truncated_value,
    u64_to_be_bytes};

verus! {

/// The supported code widths.
pub open spec fn valid_digits(digits: u32) -> bool {
    digits == 6 || digits == 7 || digits == 8
}

/// The HOTP code at `counter` for a decoded secret: the dynamic truncation of
/// the HMAC-SHA1 tag over the counter's big-endian bytes, reduced modulo
/// 10^digits.
pub open spec fn hotp_code(secret: Seq<char>, counter: u64, digits: u32) -> nat
    recommends
        base32_decode(secret) is Some,
        valid_digits(digits),
{
    truncated_value(hmac_sha1(base32_decode(secret)->0, be_bytes_of_u64(counter))) % pow10(
        digits as nat,
    )
}

/// The HOTP code at `counter`, rendered as a zero-padded decimal string of
/// exactly `digits` characters.
pub open spec fn hotp_chars(secret: Seq<char>, counter: u64, digits: u32) -> Seq<char>
    recommends
        base32_decode(secret) is Some,
        valid_digits(digits),
{
    decimal_chars(hotp_code(secret, counter, digits), digits as nat)
}

/// The lower end of the verification window: `counter - offset`, clamped to 0.
pub open spec fn window_lo(counter: u64, offset: u64) -> u64 {
    if counter >= offset {
        (counter - offset) as u64
    } else {
        0
    }
}

/// The upper end of the verification window: `counter + offset`, clamped to
/// the largest counter.
pub open spec fn window_hi(counter: u64, offset: u64) -> u64 {
    if counter + offset <= u64::MAX {
        (counter + offset) as u64
    } else {
        u64::MAX
    }
}

/// Whether some counter in the inclusive window carries the candidate code.
pub open spec fn window_match(
    secret: Seq<char>,
    lo: u64,
    hi: u64,
    comparison: Seq<char>,
    digits: u32,
) -> bool {
    exists|i: u64| lo <= i <= hi && #[trigger] hotp_chars(secret, i, digits) == comparison
}

/// The modulus 10^digits for a supported code width.
fn pow10_exec(digits: u32) -> (r: u64)
    requires
        valid_digits(digits),
    ensures
        r == pow10(digits as nat),
        r >= 1,
{
    proof {
        lemma_pow10_code_widths();
    }
    if digits == 6 {
        1000000
    } else if digits == 7 {
        10000000
    } else {
        100000000
    }
}

/// Generates the HOTP code at `counter` as a number below 10^digits.
pub fn generate_hotp(counter: &u64, secret: &String, digits: u32) -> (r: Result<u64, Error>)
    requires
        valid_digits(digits),
    ensures
        r is Ok <==> base32_decode(secret@) is Some,
        r is Ok ==> r->Ok_0 == hotp_code(secret@, *counter, digits),
        r is Ok ==> r->Ok_0 < pow10(digits as nat),
        r is Err ==> r->Err_0.kind() == ErrorType::NonBase32,
        r is Err ==> r->Err_0.text() == kind_text(r->Err_0.kind()),
{
    let key = match decode_base32(secret) {
        Ok(k) => k,
        Err(e) => {
            return Err(e);
        },
    };
    let message = u64_to_be_bytes(*counter);
    let tag = hmac_sha1_tag(&key, &message);
    let bin_code: u64 = dynamic_truncate(&tag);
    let modulus: u64 = pow10_exec(digits);
    Ok(bin_code % modulus)
}

/// Generates the HOTP code at `counter` as a zero-padded decimal string of
/// exactly `digits` characters.
pub fn generate_hotp_string(counter: &u64, secret: &String, digits: u32) -> (r: Result<
    String,
    Error,
>)
    requires
        valid_digits(digits),
    ensures
        r is Ok <==> base32_decode(secret@) is Some,
        r is Ok ==> r->Ok_0@ == hotp_chars(secret@, *counter, digits),
        r is Err ==> r->Err_0.kind() == ErrorType::NonBase32,
        r is Err ==> r->Err_0.text() == kind_text(r->Err_0.kind()),
{
    match generate_hotp(counter, secret, digits) {
        Ok(n) => Ok(decimal_string(n, digits as usize)),
        Err(e) => Err(e),
    }
}

/// Checks a candidate code against every counter in the inclusive window
/// `[counter - offset, counter + offset]`, each end clamped to the counter
/// type's range. The scan runs from the lower end upward and stops at the
/// first match.
pub fn check_hotp(
    counter: &u64,
    secret: &String,
    offset: &u64,
    comparison: &String,
    digits: u32,
) -> (r: Result<bool, Error>)
    requires
        valid_digits(digits),
    ensures
        r is Ok <==> base32_decode(secret@) is Some,
        r is Ok ==> (r->Ok_0 <==> window_match(
            secret@,
            window_lo(*counter, *offset),
            window_hi(*counter, *offset),
            comparison@,
            digits,
        )),
        r is Err ==> r->Err_0.kind() == ErrorType::NonBase32,
        r is Err ==> r->Err_0.text() == kind_text(r->Err_0.kind()),
{
    let lo: u64 = match counter.checked_sub(*offset) {
        Some(m) => m,
        None => 0,
    };
    let hi: u64 = match counter.checked_add(*offset) {
        Some(m) => m,
        None => u64::MAX,
    };
    assert(lo == window_lo(*counter, *offset));
    assert(hi == window_hi(*counter, *offset));
    assert(lo <= hi);
    let mut i: u64 = lo;
    loop
        invariant
            valid_digits(digits),
            lo <= i <= hi,
            lo == window_lo(*counter, *offset),
            hi == window_hi(*counter, *offset),
            forall|j: u64|
                lo <= j < i ==> #[trigger] hotp_chars(secret@, j, digits) != comparison@,
        decreases hi - i,
    {
        let code = match generate_hotp_string(&i, secret, digits) {
            Ok(c) => c,
            Err(e) => {
                return Err(e);
            },
        };
        if code == *comparison {
            assert(hotp_chars(secret@, i, digits) == comparison@);
            return Ok(true);
        }
        if i == hi {
            proof {
                assert forall|j: u64| lo <= j <= hi implies #[trigger] hotp_chars(
                    secret@,
                    j,
                    digits,
                ) != comparison@ by {
                    if j < i {
                    } else {
                        assert(j == i);
                    }
                }
            }
            return Ok(false);
        }
        i = i + 1;
    }
}

/// Generates a HOTP code with 6 digits as a number.
pub fn generate_6_digit_hotp(counter: &u64, secret: &String) -> (r: Result<u64, Error>)
    ensures
        r is Ok <==> base32_decode(secret@) is Some,
        r is Ok ==> r->Ok_0 == hotp_code(secret@, *counter, 6),
        r is Ok ==> r->Ok_0 < 1000000,
        r is Err ==> r->Err_0.kind() == ErrorType::NonBase32,
        r is Err ==> r->Err_0.text() == kind_text(r->Err_0.kind()),
{
    proof {
        lemma_pow10_code_widths();
    }
    generate_hotp(counter, secret, 6)
}

/// Generates a HOTP code with 7 digits as a number.
pub fn generate_7_digit_hotp(counter: &u64, secret: &String) -> (r: Result<u64, Error>)
    ensures
        r is Ok <==> base32_decode(secret@) is Some,
        r is Ok ==> r->Ok_0 == hotp_code(secret@, *counter, 7),
        r is Ok ==> r->Ok_0 < 10000000,
        r is Err ==> r->Err_0.kind() == ErrorType::NonBase32,
        r is Err ==> r->Err_0.text() == kind_text(r->Err_0.kind()),
{
    proof {
        lemma_pow10_code_widths();
    }
    generate_hotp(counter, secret, 7)
}

/// Generates a HOTP code with 8 digits as a number.
pub fn generate_8_digit_hotp(counter: &u64, secret: &String) -> (r: Result<u64, Error>)
    ensures
        r is Ok <==> base32_decode(secret@) is Some,
        r is Ok ==> r->Ok_0 == hotp_code(secret@, *counter, 8),
        r is Ok ==> r->Ok_0 < 100000000,
        r is Err ==> r->Err_0.kind() == ErrorType::NonBase32,
        r is Err ==> r->Err_0.text() == kind_text(r->Err_0.kind()),
{
    proof {
        lemma_pow10_code_widths();
    }
    generate_hotp(counter, secret, 8)
}

/// Generates a HOTP code with 6 digits as a string.
pub fn generate_6_digit_hotp_string(counter: &u64, secret: &String) -> (r: Result<String, Error>)
    ensures
        r is Ok <==> base32_decode(secret@) is Some,
        r is Ok ==> r->Ok_0@ == hotp_chars(secret@, *counter, 6),
        r is Err ==> r->Err_0.kind() == ErrorType::NonBase32,
        r is Err ==> r->Err_0.text() == kind_text(r->Err_0.kind()),
{
    generate_hotp_string(counter, secret, 6)
}

/// Generates a HOTP code with 7 digits as a string.
pub fn generate_7_digit_hotp_string(counter: &u64, secret: &String) -> (r: Result<String, Error>)
    ensures
        r is Ok <==> base32_decode(secret@) is Some,
        r is Ok ==> r->Ok_0@ == hotp_chars(secret@, *counter, 7),
        r is Err ==> r->Err_0.kind() == ErrorType::NonBase32,
        r is Err ==> r->Err_0.text() == kind_text(r->Err_0.kind()),
{
    generate_hotp_string(counter, secret, 7)
}

/// Generates a HOTP code with 8 digits as a string.
pub fn generate_8_digit_hotp_string(counter: &u64, secret: &String) -> (r: Result<String, Error>)
    ensures
        r is Ok <==> base32_decode(secret@) is Some,
        r is Ok ==> r->Ok_0@ == hotp_chars(secret@, *counter, 8),
        r is Err ==> r->Err_0.kind() == ErrorType::NonBase32,
        r is Err ==> r->Err_0.text() == kind_text(r->Err_0.kind()),
{
    generate_hotp_string(counter, secret, 8)
}

/// Checks a 6-digit HOTP code against the counter window.
pub fn check_6_digit_hotp(counter: &u64, secret: &String, offset: &u64, comparison: &String) -> (r:
    Result<bool, Error>)
    ensures
        r is Ok <==> base32_decode(secret@) is Some,
        r is Ok ==> (r->Ok_0 <==> window_match(
            secret@,
            window_lo(*counter, *offset),
            window_hi(*counter, *offset),
            comparison@,
            6,
        )),
        r is Err ==> r->Err_0.kind() == ErrorType::NonBase32,
        r is Err ==> r->Err_0.text() == kind_text(r->Err_0.kind()),
{
    check_hotp(counter, secret, offset, comparison, 6)
}

/// Checks a 7-digit HOTP code against the counter window.
pub fn check_7_digit_hotp(counter: &u64, secret: &String, offset: &u64, comparison: &String) -> (r:
    Result<bool, Error>)
    ensures
        r is Ok <==> base32_decode(secret@) is Some,
        r is Ok ==> (r->Ok_0 <==> window_match(
            secret@,
            window_lo(*counter, *offset),
            window_hi(*counter, *offset),
            comparison@,
            7,
        )),
        r is Err ==> r->Err_0.kind() == ErrorType::NonBase32,
        r is Err ==> r->Err_0.text() == kind_text(r->Err_0.kind()),
{
    check_hotp(counter, secret, offset, comparison, 7)
}

/// Checks an 8-digit HOTP code against the counter window.
pub fn check_8_digit_hotp(counter: &u64, secret: &String, offset: &u64, comparison: &String) -> (r:
    Result<bool, Error>)
    ensures
        r is Ok <==> base32_decode(secret@) is Some,
        r is Ok ==> (r->Ok_0 <==> window_match(
            secret@,
            window_lo(*counter, *offset),
            window_hi(*counter, *offset),
            comparison@,
            8,
        )),
        r is Err ==> r->Err_0.kind() == ErrorType::NonBase32,
        r is Err ==> r->Err_0.text() == kind_text(r->Err_0.kind()),
{
    check_hotp(counter, secret, offset, comparison, 8)
}

/// The numeric code is always below 10^digits, whatever the secret and
/// counter.
pub proof fn lemma_hotp_code_bound(secret: Seq<char>, counter: u64, digits: u32)
    requires
        valid_digits(digits),
    ensures
        hotp_code(secret, counter, digits) < pow10(digits as nat),
{
    lemma_pow10_pos(digits as nat);
}

/// The rendered code has exactly `digits` characters, all decimal digits, and
/// parsing it back as a decimal number recovers the numeric code.
pub proof fn lemma_hotp_string_shape(secret: Seq<char>, counter: u64, digits: u32)
    requires
        valid_digits(digits),
    ensures
        hotp_chars(secret, counter, digits).len() == digits,
        forall|i: int|
            0 <= i < digits ==> is_digit_char(#[trigger] hotp_chars(secret, counter, digits)[i]),
        chars_value(hotp_chars(secret, counter, digits)) == hotp_code(secret, counter, digits),
{
    let n = hotp_code(secret, counter, digits);
    lemma_hotp_code_bound(secret, counter, digits);
    lemma_decimal_chars_len(n, digits as nat);
    lemma_decimal_chars_digits(n, digits as nat);
    lemma_decimal_chars_value(n, digits as nat);
}

/// Determinism: the code is a function of counter, secret and digit count
/// alone. Any two results that satisfy generation's contract for the same
/// inputs agree, both on whether they succeed and on the code.
pub proof fn lemma_hotp_deterministic(
    secret: Seq<char>,
    counter: u64,
    digits: u32,
    r1: Result<u64, Error>,
    r2: Result<u64, Error>,
)
    requires
        r1 is Ok <==> base32_decode(secret) is Some,
        r1 is Ok ==> r1->Ok_0 == hotp_code(secret, counter, digits),
        r2 is Ok <==> base32_decode(secret) is Some,
        r2 is Ok ==> r2->Ok_0 == hotp_code(secret, counter, digits),
    ensures
        r1 is Ok <==> r2 is Ok,
        r1 is Ok ==> r1->Ok_0 == r2->Ok_0,
{
}

/// A candidate that equals the code at some counter inside the clamped window
/// is accepted by windowed verification.
pub proof fn lemma_window_accepts_drift(
    secret: Seq<char>,
    counter: u64,
    offset: u64,
    t: u64,
    comparison: Seq<char>,
    digits: u32,
)
    requires
        window_lo(counter, offset) <= t <= window_hi(counter, offset),
        comparison == hotp_chars(secret, t, digits),
    ensures
        window_match(
            secret,
            window_lo(counter, offset),
            window_hi(counter, offset),
            comparison,
            digits,
        ),
{
    assert(hotp_chars(secret, t, digits) == comparison);
}

/// A candidate that matches no counter inside the clamped window is rejected
/// by windowed verification.
pub proof fn lemma_window_rejects_outside(
    secret: Seq<char>,
    counter: u64,
    offset: u64,
    comparison: Seq<char>,
    digits: u32,
)
    requires
        forall|t: u64|
            window_lo(counter, offset) <= t <= window_hi(counter, offset)
                ==> #[trigger] hotp_chars(secret, t, digits) != comparison,
    ensures
        !window_match(
            secret,
            window_lo(counter, offset),
            window_hi(counter, offset),
            comparison,
            digits,
        ),
{
}

/// The window's ends saturate instead of wrapping: the lower end is zero
/// whenever `offset` exceeds `counter`, and the upper end is the largest
/// counter whenever `counter + offset` would overflow.
pub proof fn lemma_window_clamps(counter: u64, offset: u64)
    ensures
        offset > counter ==> window_lo(counter, offset) == 0,
        counter + offset > u64::MAX ==> window_hi(counter, offset) == u64::MAX,
        offset <= counter ==> window_lo(counter, offset) == counter - offset,
        counter + offset <= u64::MAX ==> window_hi(counter, offset) == counter + offset,
{
}

} // verus!
