use vstd::prelude::*;
use vstd::arithmetic::div_mod::lemma_fundamental_div_mod;

verus! {

/// 10 raised to the power `d`.
pub open spec fn pow10(d: nat) -> nat
    decreases d,
{
    if d == 0 {
        1
    } else {
        10 * pow10((d - 1) as nat)
    }
}

pub proof fn lemma_pow10_pos(d: nat)
    ensures
        pow10(d) >= 1,
    decreases d,
{
    if d > 0 {
        lemma_pow10_pos((d - 1) as nat);
    }
}

pub proof fn lemma_pow10_code_widths()
    ensures
        pow10(6) == 1000000,
        pow10(7) == 10000000,
        pow10(8) == 100000000,
{
    reveal_with_fuel(pow10, 9);
}

/// The character for a single decimal digit.
pub open spec fn digit_char(d: nat) -> char
    recommends
        d < 10,
{
    if d == 0 {
        '0'
    } else if d == 1 {
        '1'
    } else if d == 2 {
        '2'
    } else if d == 3 {
        '3'
    } else if d == 4 {
        '4'
    } else if d == 5 {
        '5'
    } else if d == 6 {
        '6'
    } else if d == 7 {
        '7'
    } else if d == 8 {
        '8'
    } else {
        '9'
    }
}

/// Whether a character is a decimal digit.
pub open spec fn is_digit_char(c: char) -> bool {
    c == '0' || c == '1' || c == '2' || c == '3' || c == '4' || c == '5' || c == '6' || c == '7'
        || c == '8' || c == '9'
}

/// The numeric value of a decimal digit character.
pub open spec fn digit_val(c: char) -> nat
    recommends
        is_digit_char(c),
{
    if c == '1' {
        1
    } else if c == '2' {
        2
    } else if c == '3' {
        3
    } else if c == '4' {
        4
    } else if c == '5' {
        5
    } else if c == '6' {
        6
    } else if c == '7' {
        7
    } else if c == '8' {
        8
    } else if c == '9' {
        9
    } else {
        0
    }
}

/// The decimal rendering of `n` zero-padded on the left to exactly `width`
/// characters, most significant digit first. Only the lowest `width` decimal
/// digits of `n` appear.
pub open spec fn decimal_chars(n: nat, width: nat) -> Seq<char>
    decreases width,
{
    if width == 0 {
        Seq::empty()
    } else {
        decimal_chars(n / 10, (width - 1) as nat).push(digit_char(n % 10))
    }
}

/// The numeric value of a sequence of decimal digit characters, most
/// significant first.
pub open spec fn chars_value(s: Seq<char>) -> nat
    recommends
        forall|i: int| 0 <= i < s.len() ==> is_digit_char(s[i]),
    decreases s.len(),
{
    if s.len() == 0 {
        0
    } else {
        chars_value(s.drop_last()) * 10 + digit_val(s.last())
    }
}

pub proof fn lemma_decimal_chars_len(n: nat, width: nat)
    ensures
        decimal_chars(n, width).len() == width,
    decreases width,
{
    if width > 0 {
        lemma_decimal_chars_len(n / 10, (width - 1) as nat);
    }
}

pub proof fn lemma_decimal_chars_digits(n: nat, width: nat)
    ensures
        forall|i: int|
            0 <= i < decimal_chars(n, width).len() ==> is_digit_char(
                #[trigger] decimal_chars(n, width)[i],
            ),
    decreases width,
{
    if width > 0 {
        lemma_decimal_chars_digits(n / 10, (width - 1) as nat);
        lemma_decimal_chars_len(n / 10, (width - 1) as nat);
        let prefix = decimal_chars(n / 10, (width - 1) as nat);
        let s = decimal_chars(n, width);
        assert(0 <= n % 10 < 10);
        assert(is_digit_char(digit_char(n % 10)));
        assert forall|i: int| 0 <= i < s.len() implies is_digit_char(s[i]) by {
            if i < prefix.len() {
                assert(s[i] == prefix[i]);
            } else {
                assert(s[i] == digit_char(n % 10));
            }
        }
    }
}

/// Rendering is left inverse to parsing: a value below 10^width is recovered
/// exactly from its zero-padded rendering.
pub proof fn lemma_decimal_chars_value(n: nat, width: nat)
    requires
        n < pow10(width),
    ensures
        chars_value(decimal_chars(n, width)) == n,
    decreases width,
{
    if width == 0 {
        assert(n == 0);
    } else {
        assert(pow10(width) == 10 * pow10((width - 1) as nat));
        assert(n / 10 < pow10((width - 1) as nat)) by (nonlinear_arith)
            requires
                n < 10 * pow10((width - 1) as nat),
        ;
        lemma_decimal_chars_value(n / 10, (width - 1) as nat);
        let s = decimal_chars(n, width);
        assert(s.drop_last() =~= decimal_chars(n / 10, (width - 1) as nat));
        assert(s.last() == digit_char(n % 10));
        assert(0 <= n % 10 < 10);
        assert(digit_val(digit_char(n % 10)) == n % 10);
        lemma_fundamental_div_mod(n as int, 10);
    }
}

/// The character for a digit, as executable code.
fn digit_char_exec(d: u64) -> (c: char)
    requires
        d < 10,
    ensures
        c == digit_char(d as nat),
{
    if d == 0 {
        '0'
    } else if d == 1 {
        '1'
    } else if d == 2 {
        '2'
    } else if d == 3 {
        '3'
    } else if d == 4 {
        '4'
    } else if d == 5 {
        '5'
    } else if d == 6 {
        '6'
    } else if d == 7 {
        '7'
    } else if d == 8 {
        '8'
    } else {
        '9'
    }
}

/// Renders the lowest `width` decimal digits of `n`, zero-padded.
fn decimal_chars_exec(n: u64, width: usize) -> (r: Vec<char>)
    ensures
        r@ == decimal_chars(n as nat, width as nat),
    decreases width,
{
    if width == 0 {
        let r: Vec<char> = Vec::new();
        proof {
            assert(r@ =~= decimal_chars(n as nat, 0));
        }
        r
    } else {
        let mut r = decimal_chars_exec(n / 10, width - 1);
        let c = digit_char_exec(n % 10);
        r.push(c);
        proof {
            assert(r@ =~= decimal_chars(n as nat, width as nat));
        }
        r
    }
}

/// Relies on the std FromIterator impl for String: collecting characters
/// yields the string of exactly those characters.
#[verifier::external_body]
fn chars_to_string(v: Vec<char>) -> (r: String)
    ensures
        r@ == v@,
{
    v.into_iter().collect()
}

/// Renders the lowest `width` decimal digits of `n` as a zero-padded string.
pub fn decimal_string(n: u64, width: usize) -> (r: String)
    ensures
        r@ == decimal_chars(n as nat, width as nat),
{
    let rendered = decimal_chars_exec(n, width);
    chars_to_string(rendered)
}

} // verus!
