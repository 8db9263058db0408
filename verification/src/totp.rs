use vstd::prelude::*;

use crate::codec::base32_decode;
use crate::error::{kind_text, Error, ErrorType};
use crate::hotp::{
    check_hotp, generate_hotp, generate_hotp_string, hotp_chars, hotp_code, valid_digits,
    window_hi, window_lo, window_match,
};

verus! {

/// Relies on std::time::SystemTime::now and duration_since(UNIX_EPOCH): the
/// whole seconds since the UNIX epoch, or nothing when the clock reads
/// before the epoch. Nothing is promised of the value.
#[verifier::external_body]
fn unix_time_secs() -> Option<u64> {
    match std::time::SystemTime::now().duration_since(std::time::UNIX_EPOCH) {
        Ok(d) => Some(d.as_secs()),
        Err(_) => None,
    }
}

/// The TOTP counter at an instant: whole time steps since the epoch.
pub open spec fn step_counter(now: u64, duration_secs: u64) -> u64
    recommends
        duration_secs != 0,
{
    now / duration_secs
}

/// The counter-window half-width that a step-count drift tolerance asks for:
/// `offset` steps of `duration_secs` seconds each.
pub open spec fn totp_window(duration_secs: u64, offset: u16) -> int {
    duration_secs * (offset as u64)
}

/// The TOTP code at an instant: the HOTP code at the counter that the
/// instant and the step duration give.
pub open spec fn totp_code(secret: Seq<char>, now: u64, duration_secs: u64, digits: u32) -> nat
    recommends
        duration_secs != 0,
        base32_decode(secret) is Some,
        valid_digits(digits),
{
    hotp_code(secret, step_counter(now, duration_secs), digits)
}

/// TOTP/HOTP equivalence: at any instant, the TOTP code for a step duration
/// is exactly the HOTP code at counter `now / duration_secs`.
pub proof fn lemma_totp_hotp_equivalence(
    secret: Seq<char>,
    now: u64,
    duration_secs: u64,
    digits: u32,
)
    requires
        duration_secs != 0,
    ensures
        totp_code(secret, now, duration_secs, digits) == hotp_code(
            secret,
            now / duration_secs,
            digits,
        ),
{
}

/// Generates a TOTP code as a number: the HOTP code at the counter that the
/// current time and the step duration give.
pub fn generate_totp(secret: &String, duration_secs: &u64, digits: u32) -> (r: Result<u64, Error>)
    requires
        valid_digits(digits),
    ensures
        *duration_secs == 0 ==> r is Err && r->Err_0.kind() == ErrorType::InvalidCounter,
        r is Ok ==> *duration_secs != 0 && base32_decode(secret@) is Some,
        r is Ok ==> exists|now: u64|
            r->Ok_0 == hotp_code(secret@, #[trigger] step_counter(now, *duration_secs), digits),
        r is Err ==> r->Err_0.kind() == ErrorType::InvalidCounter || r->Err_0.kind()
            == ErrorType::NonBase32,
        r is Err && r->Err_0.kind() == ErrorType::NonBase32 ==> base32_decode(secret@) is None,
        r is Err ==> r->Err_0.text() == kind_text(r->Err_0.kind()),
        *duration_secs != 0 && base32_decode(secret@) is None ==> r is Err,
{
    if *duration_secs == 0 {
        return Err(
            Error::new(
                ErrorType::InvalidCounter,
                "Could not calculate a value for the current counter.",
            ),
        );
    }
    let now: u64 = match unix_time_secs() {
        Some(t) => t,
        None => {
            return Err(
                Error::new(
                    ErrorType::InvalidCounter,
                    "Could not calculate a value for the current counter.",
                ),
            );
        },
    };
    let counter: u64 = now / *duration_secs;
    let r = generate_hotp(&counter, secret, digits);
    proof {
        assert(counter == step_counter(now, *duration_secs));
    }
    r
}

/// Generates a TOTP code as a zero-padded decimal string of exactly `digits`
/// characters.
pub fn generate_totp_string(secret: &String, duration_secs: &u64, digits: u32) -> (r: Result<
    String,
    Error,
>)
    requires
        valid_digits(digits),
    ensures
        *duration_secs == 0 ==> r is Err && r->Err_0.kind() == ErrorType::InvalidCounter,
        r is Ok ==> *duration_secs != 0 && base32_decode(secret@) is Some,
        r is Ok ==> exists|now: u64|
            r->Ok_0@ == hotp_chars(secret@, #[trigger] step_counter(now, *duration_secs), digits),
        r is Err ==> r->Err_0.kind() == ErrorType::InvalidCounter || r->Err_0.kind()
            == ErrorType::NonBase32,
        r is Err && r->Err_0.kind() == ErrorType::NonBase32 ==> base32_decode(secret@) is None,
        r is Err ==> r->Err_0.text() == kind_text(r->Err_0.kind()),
        *duration_secs != 0 && base32_decode(secret@) is None ==> r is Err,
{
    if *duration_secs == 0 {
        return Err(
            Error::new(
                ErrorType::InvalidCounter,
                "Could not calculate a value for the current counter.",
            ),
        );
    }
    let now: u64 = match unix_time_secs() {
        Some(t) => t,
        None => {
            return Err(
                Error::new(
                    ErrorType::InvalidCounter,
                    "Could not calculate a value for the current counter.",
                ),
            );
        },
    };
    let counter: u64 = now / *duration_secs;
    let r = generate_hotp_string(&counter, secret, digits);
    proof {
        assert(counter == step_counter(now, *duration_secs));
    }
    r
}

/// Checks a TOTP code: derives the counter from the current time, widens the
/// step-count drift tolerance into a counter window of `duration_secs *
/// offset` positions, and scans that window.
pub fn check_totp(
    secret: &String,
    offset: &u16,
    comparison: &String,
    duration_secs: &u64,
    digits: u32,
) -> (r: Result<bool, Error>)
    requires
        valid_digits(digits),
    ensures
        *duration_secs == 0 ==> r is Err && r->Err_0.kind() == ErrorType::InvalidCounter,
        *duration_secs != 0 && totp_window(*duration_secs, *offset) > u64::MAX ==> r is Err
            && r->Err_0.kind() == ErrorType::InvalidOffset,
        r is Err && r->Err_0.kind() == ErrorType::InvalidOffset ==> *duration_secs != 0
            && totp_window(*duration_secs, *offset) > u64::MAX,
        r is Ok ==> *duration_secs != 0 && totp_window(*duration_secs, *offset) <= u64::MAX
            && base32_decode(secret@) is Some,
        r is Ok ==> exists|now: u64|
            (r->Ok_0 <==> window_match(
                secret@,
                window_lo(
                    #[trigger] step_counter(now, *duration_secs),
                    totp_window(*duration_secs, *offset) as u64,
                ),
                window_hi(
                    step_counter(now, *duration_secs),
                    totp_window(*duration_secs, *offset) as u64,
                ),
                comparison@,
                digits,
            )),
        r is Err ==> r->Err_0.kind() == ErrorType::InvalidCounter || r->Err_0.kind()
            == ErrorType::InvalidOffset || r->Err_0.kind() == ErrorType::NonBase32,
        r is Err && r->Err_0.kind() == ErrorType::NonBase32 ==> base32_decode(secret@) is None,
        r is Err ==> r->Err_0.text() == kind_text(r->Err_0.kind()),
        *duration_secs != 0 && totp_window(*duration_secs, *offset) <= u64::MAX && base32_decode(
            secret@,
        ) is None ==> r is Err,
{
    if *duration_secs == 0 {
        return Err(
            Error::new(
                ErrorType::InvalidCounter,
                "Could not calculate a value for the current counter.",
            ),
        );
    }
    let window: u64 = match duration_secs.checked_mul(*offset as u64) {
        Some(w) => w,
        None => {
            return Err(
                Error::new(
                    ErrorType::InvalidOffset,
                    "Either the duration provdided or the offset specified is too large.",
                ),
            );
        },
    };
    let now: u64 = match unix_time_secs() {
        Some(t) => t,
        None => {
            return Err(
                Error::new(
                    ErrorType::InvalidCounter,
                    "Could not calculate a value for the current counter.",
                ),
            );
        },
    };
    let counter: u64 = now / *duration_secs;
    let r = check_hotp(&counter, secret, &window, comparison, digits);
    proof {
        assert(counter == step_counter(now, *duration_secs));
        assert(window == totp_window(*duration_secs, *offset) as u64);
    }
    r
}

/// Generates a 6-digit TOTP code using the time since the UNIX epoch.
pub fn generate_6_digit_totp(secret: &String, duration_secs: &u64) -> (r: Result<u64, Error>)
    ensures
        *duration_secs == 0 ==> r is Err && r->Err_0.kind() == ErrorType::InvalidCounter,
        r is Ok ==> *duration_secs != 0 && base32_decode(secret@) is Some,
        r is Ok ==> exists|now: u64|
            r->Ok_0 == hotp_code(secret@, #[trigger] step_counter(now, *duration_secs), 6),
        r is Err ==> r->Err_0.kind() == ErrorType::InvalidCounter || r->Err_0.kind()
            == ErrorType::NonBase32,
        r is Err && r->Err_0.kind() == ErrorType::NonBase32 ==> base32_decode(secret@) is None,
        r is Err ==> r->Err_0.text() == kind_text(r->Err_0.kind()),
        *duration_secs != 0 && base32_decode(secret@) is None ==> r is Err,
{
    generate_totp(secret, duration_secs, 6)
}

/// Generates a 7-digit TOTP code using the time since the UNIX epoch.
pub fn generate_7_digit_totp(secret: &String, duration_secs: &u64) -> (r: Result<u64, Error>)
    ensures
        *duration_secs == 0 ==> r is Err && r->Err_0.kind() == ErrorType::InvalidCounter,
        r is Ok ==> *duration_secs != 0 && base32_decode(secret@) is Some,
        r is Ok ==> exists|now: u64|
            r->Ok_0 == hotp_code(secret@, #[trigger] step_counter(now, *duration_secs), 7),
        r is Err ==> r->Err_0.kind() == ErrorType::InvalidCounter || r->Err_0.kind()
            == ErrorType::NonBase32,
        r is Err && r->Err_0.kind() == ErrorType::NonBase32 ==> base32_decode(secret@) is None,
        r is Err ==> r->Err_0.text() == kind_text(r->Err_0.kind()),
        *duration_secs != 0 && base32_decode(secret@) is None ==> r is Err,
{
    generate_totp(secret, duration_secs, 7)
}

/// Generates an 8-digit TOTP code using the time since the UNIX epoch.
pub fn generate_8_digit_totp(secret: &String, duration_secs: &u64) -> (r: Result<u64, Error>)
    ensures
        *duration_secs == 0 ==> r is Err && r->Err_0.kind() == ErrorType::InvalidCounter,
        r is Ok ==> *duration_secs != 0 && base32_decode(secret@) is Some,
        r is Ok ==> exists|now: u64|
            r->Ok_0 == hotp_code(secret@, #[trigger] step_counter(now, *duration_secs), 8),
        r is Err ==> r->Err_0.kind() == ErrorType::InvalidCounter || r->Err_0.kind()
            == ErrorType::NonBase32,
        r is Err && r->Err_0.kind() == ErrorType::NonBase32 ==> base32_decode(secret@) is None,
        r is Err ==> r->Err_0.text() == kind_text(r->Err_0.kind()),
        *duration_secs != 0 && base32_decode(secret@) is None ==> r is Err,
{
    generate_totp(secret, duration_secs, 8)
}

/// Generates a 6-digit TOTP code as a zero-padded string.
pub fn generate_6_digit_totp_string(secret: &String, duration_secs: &u64) -> (r: Result<
    String,
    Error,
>)
    ensures
        *duration_secs == 0 ==> r is Err && r->Err_0.kind() == ErrorType::InvalidCounter,
        r is Ok ==> *duration_secs != 0 && base32_decode(secret@) is Some,
        r is Ok ==> exists|now: u64|
            r->Ok_0@ == hotp_chars(secret@, #[trigger] step_counter(now, *duration_secs), 6),
        r is Err ==> r->Err_0.kind() == ErrorType::InvalidCounter || r->Err_0.kind()
            == ErrorType::NonBase32,
        r is Err && r->Err_0.kind() == ErrorType::NonBase32 ==> base32_decode(secret@) is None,
        r is Err ==> r->Err_0.text() == kind_text(r->Err_0.kind()),
        *duration_secs != 0 && base32_decode(secret@) is None ==> r is Err,
{
    generate_totp_string(secret, duration_secs, 6)
}

/// Generates a 7-digit TOTP code as a zero-padded string.
pub fn generate_7_digit_totp_string(secret: &String, duration_secs: &u64) -> (r: Result<
    String,
    Error,
>)
    ensures
        *duration_secs == 0 ==> r is Err && r->Err_0.kind() == ErrorType::InvalidCounter,
        r is Ok ==> *duration_secs != 0 && base32_decode(secret@) is Some,
        r is Ok ==> exists|now: u64|
            r->Ok_0@ == hotp_chars(secret@, #[trigger] step_counter(now, *duration_secs), 7),
        r is Err ==> r->Err_0.kind() == ErrorType::InvalidCounter || r->Err_0.kind()
            == ErrorType::NonBase32,
        r is Err && r->Err_0.kind() == ErrorType::NonBase32 ==> base32_decode(secret@) is None,
        r is Err ==> r->Err_0.text() == kind_text(r->Err_0.kind()),
        *duration_secs != 0 && base32_decode(secret@) is None ==> r is Err,
{
    generate_totp_string(secret, duration_secs, 7)
}

/// Generates an 8-digit TOTP code as a zero-padded string.
pub fn generate_8_digit_totp_string(secret: &String, duration_secs: &u64) -> (r: Result<
    String,
    Error,
>)
    ensures
        *duration_secs == 0 ==> r is Err && r->Err_0.kind() == ErrorType::InvalidCounter,
        r is Ok ==> *duration_secs != 0 && base32_decode(secret@) is Some,
        r is Ok ==> exists|now: u64|
            r->Ok_0@ == hotp_chars(secret@, #[trigger] step_counter(now, *duration_secs), 8),
        r is Err ==> r->Err_0.kind() == ErrorType::InvalidCounter || r->Err_0.kind()
            == ErrorType::NonBase32,
        r is Err && r->Err_0.kind() == ErrorType::NonBase32 ==> base32_decode(secret@) is None,
        r is Err ==> r->Err_0.text() == kind_text(r->Err_0.kind()),
        *duration_secs != 0 && base32_decode(secret@) is None ==> r is Err,
{
    generate_totp_string(secret, duration_secs, 8)
}

/// Checks a 6-digit TOTP code against the drift window.
pub fn check_6_digit_totp(
    secret: &String,
    offset: &u16,
    comparison: &String,
    duration_secs: &u64,
) -> (r: Result<bool, Error>)
    ensures
        *duration_secs == 0 ==> r is Err && r->Err_0.kind() == ErrorType::InvalidCounter,
        *duration_secs != 0 && totp_window(*duration_secs, *offset) > u64::MAX ==> r is Err
            && r->Err_0.kind() == ErrorType::InvalidOffset,
        r is Err && r->Err_0.kind() == ErrorType::InvalidOffset ==> *duration_secs != 0
            && totp_window(*duration_secs, *offset) > u64::MAX,
        r is Ok ==> *duration_secs != 0 && totp_window(*duration_secs, *offset) <= u64::MAX
            && base32_decode(secret@) is Some,
        r is Ok ==> exists|now: u64|
            (r->Ok_0 <==> window_match(
                secret@,
                window_lo(
                    #[trigger] step_counter(now, *duration_secs),
                    totp_window(*duration_secs, *offset) as u64,
                ),
                window_hi(
                    step_counter(now, *duration_secs),
                    totp_window(*duration_secs, *offset) as u64,
                ),
                comparison@,
                6,
            )),
        r is Err ==> r->Err_0.kind() == ErrorType::InvalidCounter || r->Err_0.kind()
            == ErrorType::InvalidOffset || r->Err_0.kind() == ErrorType::NonBase32,
        r is Err && r->Err_0.kind() == ErrorType::NonBase32 ==> base32_decode(secret@) is None,
        r is Err ==> r->Err_0.text() == kind_text(r->Err_0.kind()),
        *duration_secs != 0 && totp_window(*duration_secs, *offset) <= u64::MAX && base32_decode(
            secret@,
        ) is None ==> r is Err,
{
    check_totp(secret, offset, comparison, duration_secs, 6)
}

/// Checks a 7-digit TOTP code against the drift window.
pub fn check_7_digit_totp(
    secret: &String,
    offset: &u16,
    comparison: &String,
    duration_secs: &u64,
) -> (r: Result<bool, Error>)
    ensures
        *duration_secs == 0 ==> r is Err && r->Err_0.kind() == ErrorType::InvalidCounter,
        *duration_secs != 0 && totp_window(*duration_secs, *offset) > u64::MAX ==> r is Err
            && r->Err_0.kind() == ErrorType::InvalidOffset,
        r is Err && r->Err_0.kind() == ErrorType::InvalidOffset ==> *duration_secs != 0
            && totp_window(*duration_secs, *offset) > u64::MAX,
        r is Ok ==> *duration_secs != 0 && totp_window(*duration_secs, *offset) <= u64::MAX
            && base32_decode(secret@) is Some,
        r is Ok ==> exists|now: u64|
            (r->Ok_0 <==> window_match(
                secret@,
                window_lo(
                    #[trigger] step_counter(now, *duration_secs),
                    totp_window(*duration_secs, *offset) as u64,
                ),
                window_hi(
                    step_counter(now, *duration_secs),
                    totp_window(*duration_secs, *offset) as u64,
                ),
                comparison@,
                7,
            )),
        r is Err ==> r->Err_0.kind() == ErrorType::InvalidCounter || r->Err_0.kind()
            == ErrorType::InvalidOffset || r->Err_0.kind() == ErrorType::NonBase32,
        r is Err && r->Err_0.kind() == ErrorType::NonBase32 ==> base32_decode(secret@) is None,
        r is Err ==> r->Err_0.text() == kind_text(r->Err_0.kind()),
        *duration_secs != 0 && totp_window(*duration_secs, *offset) <= u64::MAX && base32_decode(
            secret@,
        ) is None ==> r is Err,
{
    check_totp(secret, offset, comparison, duration_secs, 7)
}

/// Checks an 8-digit TOTP code against the drift window.
pub fn check_8_digit_totp(
    secret: &String,
    offset: &u16,
    comparison: &String,
    duration_secs: &u64,
) -> (r: Result<bool, Error>)
    ensures
        *duration_secs == 0 ==> r is Err && r->Err_0.kind() == ErrorType::InvalidCounter,
        *duration_secs != 0 && totp_window(*duration_secs, *offset) > u64::MAX ==> r is Err
            && r->Err_0.kind() == ErrorType::InvalidOffset,
        r is Err && r->Err_0.kind() == ErrorType::InvalidOffset ==> *duration_secs != 0
            && totp_window(*duration_secs, *offset) > u64::MAX,
        r is Ok ==> *duration_secs != 0 && totp_window(*duration_secs, *offset) <= u64::MAX
            && base32_decode(secret@) is Some,
        r is Ok ==> exists|now: u64|
            (r->Ok_0 <==> window_match(
                secret@,
                window_lo(
                    #[trigger] step_counter(now, *duration_secs),
                    totp_window(*duration_secs, *offset) as u64,
                ),
                window_hi(
                    step_counter(now, *duration_secs),
                    totp_window(*duration_secs, *offset) as u64,
                ),
                comparison@,
                8,
            )),
        r is Err ==> r->Err_0.kind() == ErrorType::InvalidCounter || r->Err_0.kind()
            == ErrorType::InvalidOffset || r->Err_0.kind() == ErrorType::NonBase32,
        r is Err && r->Err_0.kind() == ErrorType::NonBase32 ==> base32_decode(secret@) is None,
        r is Err ==> r->Err_0.text() == kind_text(r->Err_0.kind()),
        *duration_secs != 0 && totp_window(*duration_secs, *offset) <= u64::MAX && base32_decode(
            secret@,
        ) is None ==> r is Err,
{
    check_totp(secret, offset, comparison, duration_secs, 8)
}

} // verus!
