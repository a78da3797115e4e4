//! Decimal rendering of raw token amounts for display.
use vstd::prelude::*;

use crate::price_feed::{checked_pow10, lemma_pow10_monotone, lemma_pow10_positive, pow10};

verus! {

/// Number of decimal digits of `n`; `0` has one.
pub open spec fn num_digits(n: nat) -> nat
    decreases n,
{
    if n < 10 {
        1
    } else {
        1 + num_digits(n / 10)
    }
}

/// ASCII code of the decimal digit `d`.
pub open spec fn digit_byte(d: int) -> u8 {
    (48 + d) as u8
}

/// The last `width` decimal digits of `n`, most significant first, zero-padded.
pub open spec fn fixed_digits(n: nat, width: nat) -> Seq<u8> {
    Seq::new(width, |i: int| digit_byte(((n / pow10((width - 1 - i) as nat)) % 10) as int))
}

/// `n` written in decimal, without leading zeros.
pub open spec fn decimal_digits(n: nat) -> Seq<u8> {
    fixed_digits(n, num_digits(n))
}

/// `s` with its trailing `'0'` bytes removed.
pub open spec fn trim_trailing_zeros(s: Seq<u8>) -> Seq<u8>
    decreases s.len(),
{
    if s.len() > 0 && s.last() == 48u8 {
        trim_trailing_zeros(s.drop_last())
    } else {
        s
    }
}

/// The text of `raw` base units of a token with `decimals` decimal places:
/// the whole part, then — when anything is left of them — the first six (at
/// most) fractional digits with their trailing zeros trimmed.
pub open spec fn token_amount_text(raw: nat, decimals: nat) -> Seq<u8> {
    let scale = pow10(decimals);
    let whole = raw / scale;
    let frac = raw % scale;
    let places = if decimals < 6 {
        decimals
    } else {
        6
    };
    let shown = trim_trailing_zeros(fixed_digits(frac, decimals).take(places as int));
    if frac == 0 || shown.len() == 0 {
        decimal_digits(whole)
    } else {
        decimal_digits(whole) + seq![46u8] + shown
    }
}

proof fn lemma_trim_trailing_zeros(s: Seq<u8>)
    ensures
        trim_trailing_zeros(s).len() <= s.len(),
        trim_trailing_zeros(s) =~= s.take(trim_trailing_zeros(s).len() as int),
        trim_trailing_zeros(s).len() > 0 ==> trim_trailing_zeros(s).last() != 48u8,
    decreases s.len(),
{
    if s.len() > 0 && s.last() == 48u8 {
        lemma_trim_trailing_zeros(s.drop_last());
        let t = trim_trailing_zeros(s.drop_last());
        assert(s.drop_last().take(t.len() as int) =~= s.take(t.len() as int));
    }
}

/// An amount renders as its whole part alone, or followed by a point and
/// one to six fractional digits of which the last is not zero.
pub proof fn law_at_most_six_places(raw: nat, decimals: nat)
    ensures
        ({
            let text = token_amount_text(raw, decimals);
            let whole = decimal_digits(raw / pow10(decimals));
            ||| text == whole
            ||| exists|shown: Seq<u8>|
                text == whole + seq![46u8] + shown && 1 <= shown.len() <= 6 && shown.last() != 48u8
        }),
{
    let frac = raw % pow10(decimals);
    let places = if decimals < 6 {
        decimals
    } else {
        6
    };
    let shown = trim_trailing_zeros(fixed_digits(frac, decimals).take(places as int));
    lemma_trim_trailing_zeros(fixed_digits(frac, decimals).take(places as int));
    if frac != 0 && shown.len() != 0 {
        let whole = decimal_digits(raw / pow10(decimals));
        assert(token_amount_text(raw, decimals) == whole + seq![46u8] + shown);
    }
}

/// The characters of an ASCII byte string.
pub open spec fn ascii_text(bytes: Seq<u8>) -> Seq<char> {
    bytes.map_values(|b: u8| b as char)
}

pub open spec fn all_ascii(bytes: Seq<u8>) -> bool {
    forall|i: int| 0 <= i < bytes.len() ==> #[trigger] bytes[i] < 128
}

/// The text of an ASCII byte vector.
///
/// Trusted: calls `String::from_utf8`, which accepts every ASCII vector
/// (ASCII is valid UTF-8) and decodes each byte to the character with the
/// same code. The error arm cannot be reached under the precondition.
#[verifier::external_body]
fn ascii_string(bytes: Vec<u8>) -> (s: String)
    requires
        all_ascii(bytes@),
    ensures
        s@ == ascii_text(bytes@),
{
    match String::from_utf8(bytes) {
        Ok(s) => s,
        Err(_) => String::new(),
    }
}

proof fn lemma_pow10_step(k: nat)
    ensures
        pow10(k + 1) == 10 * pow10(k),
{
}

proof fn lemma_pow10_twenty()
    ensures
        pow10(19) == 10_000_000_000_000_000_000,
        pow10(20) == 100_000_000_000_000_000_000,
{
    reveal_with_fuel(pow10, 21);
}

/// Appends the last `width` decimal digits of `n`, zero-padded.
fn push_fixed_digits(out: &mut Vec<u8>, n: u64, width: usize)
    ensures
        final(out)@ == old(out)@ + fixed_digits(n as nat, width as nat),
{
    let mut digits: Vec<u8> = Vec::new();
    let mut k: usize = 0;
    while k < width
        invariant
            k <= width,
            digits@.len() == k,
        decreases width - k,
    {
        digits.push(48u8);
        k = k + 1;
    }
    let ghost target = fixed_digits(n as nat, width as nat);
    assert(n as nat / pow10(0) == n) by {
        reveal_with_fuel(pow10, 1);
        assert(n as nat / 1 == n) by (nonlinear_arith);
    }
    let mut m: u64 = n;
    let mut i: usize = width;
    while i > 0
        invariant
            i <= width,
            digits@.len() == width,
            target == fixed_digits(n as nat, width as nat),
            m == n as nat / pow10((width - i) as nat),
            forall|j: int| i <= j < width ==> digits@[j] == target[j],
        decreases i,
    {
        i = i - 1;
        proof {
            lemma_pow10_positive((width - 1 - i) as nat);
            lemma_pow10_step((width - 1 - i) as nat);
            vstd::arithmetic::div_mod::lemma_div_denominator(n as int, pow10((width - 1 - i) as nat) as int, 10);
            assert(target[i as int] == digit_byte((m % 10) as int));
        }
        digits.set(i, 48u8 + (m % 10) as u8);
        m = m / 10;
    }
    assert(digits@ =~= target);
    let ghost before = out@;
    out.append(&mut digits);
    assert(out@ =~= before + target);
}

/// Appends `n` in decimal.
fn push_decimal(out: &mut Vec<u8>, n: u64)
    ensures
        final(out)@ == old(out)@ + decimal_digits(n as nat),
{
    let mut width: usize = 1;
    let mut m: u64 = n;
    assert(n as nat / pow10(0) == n) by {
        reveal_with_fuel(pow10, 1);
        assert(n as nat / 1 == n) by (nonlinear_arith);
    }
    while m >= 10
        invariant
            1 <= width <= 20,
            m == n as nat / pow10((width - 1) as nat),
            num_digits(n as nat) == width - 1 + num_digits(m as nat),
        decreases m,
    {
        proof {
            lemma_pow10_positive((width - 1) as nat);
            lemma_pow10_step((width - 1) as nat);
            vstd::arithmetic::div_mod::lemma_div_denominator(n as int, pow10((width - 1) as nat) as int, 10);
            if width == 20 {
                lemma_pow10_twenty();
                crate::arith::lemma_div_below(n as int, pow10(19) as int, 2);
            }
        }
        m = m / 10;
        width = width + 1;
    }
    push_fixed_digits(out, n, width);
}

proof fn lemma_decimal_digits_ascii(n: nat)
    ensures
        all_ascii(decimal_digits(n)),
{
    lemma_fixed_digits_ascii(n, num_digits(n));
    assert forall|i: int| 0 <= i < decimal_digits(n).len() implies #[trigger] decimal_digits(n)[i] < 128 by {
        assert(decimal_digits(n)[i] == fixed_digits(n, num_digits(n))[i]);
    }
}

proof fn lemma_fixed_digits_ascii(n: nat, width: nat)
    ensures
        forall|i: int|
            0 <= i < width ==> 48 <= #[trigger] fixed_digits(n, width)[i] <= 57,
{
    assert forall|i: int| 0 <= i < width implies 48 <= #[trigger] fixed_digits(n, width)[i] <= 57 by {
        let q = n / pow10((width - 1 - i) as nat);
        assert(0 <= q % 10 < 10);
    }
}

/// Converts a raw token amount to a human-readable decimal string: the
/// whole part, then at most six fractional digits with trailing zeros
/// trimmed, and no point when no fractional digit is left.
///
/// `10^decimals` must fit in a `u64`.
pub fn format_token_amount(raw: u64, decimals: u8) -> (r: String)
    requires
        decimals <= 19,
    ensures
        r@ == ascii_text(token_amount_text(raw as nat, decimals as nat)),
{
    let mut out: Vec<u8> = Vec::new();
    if decimals == 0 {
        push_decimal(&mut out, raw);
        proof {
            assert(pow10(0) == 1) by {
                reveal_with_fuel(pow10, 1);
            }
            assert(raw as nat / 1 == raw as nat);
            assert(raw as nat % 1 == 0);
            lemma_decimal_digits_ascii(raw as nat);
            assert(out@ =~= token_amount_text(raw as nat, 0));
        }
        return ascii_string(out);
    }
    proof {
        lemma_pow10_monotone(decimals as nat, 19);
        lemma_pow10_twenty();
        lemma_pow10_positive(decimals as nat);
    }
    let scale: u64 = match checked_pow10(decimals as u32) {
        Some(p) => p as u64,
        None => 1,
    };
    let whole = raw / scale;
    let frac = raw % scale;
    push_decimal(&mut out, whole);
    let ghost whole_text = decimal_digits(whole as nat);
    proof {
        lemma_decimal_digits_ascii(whole as nat);
    }
    if frac == 0 {
        assert(out@ =~= token_amount_text(raw as nat, decimals as nat));
        return ascii_string(out);
    }
    let mut shown: Vec<u8> = Vec::new();
    push_fixed_digits(&mut shown, frac, decimals as usize);
    let places: usize = if decimals < 6 {
        decimals as usize
    } else {
        6
    };
    shown.truncate(places);
    let ghost digits = fixed_digits(frac as nat, decimals as nat);
    proof {
        lemma_fixed_digits_ascii(frac as nat, decimals as nat);
        assert(shown@ =~= digits.take(places as int));
    }
    while shown.len() > 0 && shown[shown.len() - 1] == 48u8
        invariant
            trim_trailing_zeros(shown@) == trim_trailing_zeros(digits.take(places as int)),
            shown@.len() <= places <= decimals,
            forall|j: int| 0 <= j < shown@.len() ==> shown@[j] == digits[j],
            forall|i: int| 0 <= i < decimals ==> 48 <= #[trigger] digits[i] <= 57,
            digits.len() == decimals,
        decreases shown@.len(),
    {
        shown.pop();
    }
    if shown.len() == 0 {
        assert(out@ =~= token_amount_text(raw as nat, decimals as nat));
        return ascii_string(out);
    }
    out.push(46u8);
    let ghost shown_text = shown@;
    out.append(&mut shown);
    assert(out@ =~= token_amount_text(raw as nat, decimals as nat));
    assert(all_ascii(out@)) by {
        assert forall|i: int| 0 <= i < out@.len() implies #[trigger] out@[i] < 128 by {
            if i < whole_text.len() {
                assert(out@[i] == whole_text[i]);
            } else if i > whole_text.len() {
                let k = i - whole_text.len() - 1;
                assert(out@[i] == shown_text[k]);
                assert(shown_text[k] == digits[k]);
            } else {
                assert(out@[i] == 46u8);
            }
        }
    }
    ascii_string(out)
}

} // verus!
