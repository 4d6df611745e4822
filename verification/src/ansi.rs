//! Text building blocks for terminal output: decimal numbers and the
//! escape sequence that addresses a screen position.

use vstd::prelude::*;

verus! {

/// Trusted, of std's `String::push`: afterwards the string is what it was
/// with `c` added at its end.
pub assume_specification[ String::push ](text: &mut String, c: char)
    ensures
        final(text)@ == old(text)@.push(c),
;

/// Trusted, of std's `String::push_str`: afterwards the string is what it
/// was with the characters of `tail` added at its end.
pub assume_specification[ String::push_str ](text: &mut String, tail: &str)
    ensures
        final(text)@ == old(text)@ + tail@,
;

/// The escape character that introduces a control sequence.
pub const ESCAPE: char = '\x1B';

/// The character of a single decimal digit.
pub open spec fn digit(d: nat) -> char
    recommends
        d < 10,
{
    ((48 + d) as u8) as char
}

/// The decimal numeral of `n`, most significant digit first, without
/// leading zeros.
pub open spec fn decimal(n: nat) -> Seq<char>
    decreases n,
{
    if n < 10 {
        seq![digit(n)]
    } else {
        decimal(n / 10).push(digit(n % 10))
    }
}

/// The sequence that moves the output position to column `x`, row `y`.
pub open spec fn goto(x: u16, y: u16) -> Seq<char> {
    seq![ESCAPE, '['] + decimal(y as nat) + seq![';'] + decimal(x as nat) + seq!['H']
}

/// Appends the decimal numeral of `n` to `text`.
pub fn push_decimal(text: &mut String, n: u128)
    ensures
        final(text)@ == old(text)@ + decimal(n as nat),
    decreases n,
{
    if n >= 10 {
        push_decimal(text, n / 10);
    }
    let low: u8 = (n % 10) as u8;
    text.push((48u8 + low) as char);
    proof {
        if n < 10 {
            assert(old(text)@.push(digit(n as nat)) =~= old(text)@ + decimal(n as nat));
        } else {
            assert((old(text)@ + decimal((n / 10) as nat)).push(digit((n % 10) as nat))
                =~= old(text)@ + decimal(n as nat));
        }
    }
}

/// Appends the sequence that moves the output position to column `x`,
/// row `y`.
pub fn push_goto(text: &mut String, x: u16, y: u16)
    ensures
        final(text)@ == old(text)@ + goto(x, y),
{
    text.push(ESCAPE);
    text.push('[');
    push_decimal(text, y as u128);
    text.push(';');
    push_decimal(text, x as u128);
    text.push('H');
    assert(text@ =~= old(text)@ + goto(x, y));
}

/// Ten to the power of `k`.
pub open spec fn pow10(k: nat) -> nat
    decreases k,
{
    if k == 0 {
        1
    } else {
        10 * pow10((k - 1) as nat)
    }
}

/// A numeral has only digits.
pub proof fn lemma_decimal_digits(n: nat)
    ensures
        forall|i: int| 0 <= i < decimal(n).len() ==> '0' <= #[trigger] decimal(n)[i] <= '9',
    decreases n,
{
    assert(forall|d: nat| d < 10 ==> '0' <= #[trigger] digit(d) <= '9') by {
        assert('0' as u8 == 48 && '9' as u8 == 57);
    }
    if n >= 10 {
        lemma_decimal_digits(n / 10);
        assert forall|i: int| 0 <= i < decimal(n).len() implies '0' <= #[trigger] decimal(n)[i]
            <= '9' by {
            if i < decimal(n / 10).len() {
                assert(decimal(n)[i] == decimal(n / 10)[i]);
            } else {
                assert(decimal(n)[i] == digit(n % 10));
            }
        }
    } else {
        assert(decimal(n)[0] == digit(n));
    }
}

/// A number below ten to the power of `k` has at most `k` digits.
pub proof fn lemma_decimal_len(n: nat, k: nat)
    requires
        k >= 1,
        n < pow10(k),
    ensures
        1 <= decimal(n).len() <= k,
    decreases k,
{
    if n >= 10 {
        reveal_with_fuel(pow10, 2);
        if k == 1 {
            assert(pow10(1) == 10);
        } else {
            lemma_decimal_len(n / 10, (k - 1) as nat);
        }
    }
}

/// A number of 128 bits has at most 39 digits.
pub proof fn lemma_decimal_len_u128(n: u128)
    ensures
        1 <= decimal(n as nat).len() <= 39,
{
    reveal_with_fuel(pow10, 40);
    assert(pow10(39) == 1000000000000000000000000000000000000000);
    lemma_decimal_len(n as nat, 39);
}

} // verus!
