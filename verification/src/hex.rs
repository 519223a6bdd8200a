//! Fixed-width lowercase hexadecimal, as a mathematical model.
//!
//! Identifiers on the wire are zero-padded lowercase hex. The functions here
//! say what such text is and which number it stands for, and the lemmas show
//! that reading undoes writing.

use vstd::prelude::*;

verus! {

/// The sixteen lowercase hex digits, least first.
pub open spec fn digits() -> Seq<char> {
    seq!['0', '1', '2', '3', '4', '5', '6', '7', '8', '9', 'a', 'b', 'c', 'd', 'e', 'f']
}

/// The digit that writes `d`, for `d` below sixteen.
pub open spec fn digit_of(d: nat) -> char
    recommends
        d < 16,
{
    digits()[d as int]
}

/// Whether `c` is one of the sixteen lowercase hex digits.
pub open spec fn is_digit(c: char) -> bool {
    exists|d: nat| d < 16 && #[trigger] digit_of(d) == c
}

/// The number that the digit `c` writes.
pub open spec fn value_of(c: char) -> nat
    recommends
        is_digit(c),
{
    choose|d: nat| d < 16 && #[trigger] digit_of(d) == c
}

/// Sixteen to the power `width`.
pub open spec fn pow16(width: nat) -> nat
    decreases width,
{
    if width == 0 {
        1
    } else {
        16 * pow16((width - 1) as nat)
    }
}

/// `n` written in exactly `width` lowercase hex digits, most significant first.
/// Digits above the width are dropped.
pub open spec fn encode(n: nat, width: nat) -> Seq<char>
    decreases width,
{
    if width == 0 {
        Seq::empty()
    } else {
        encode(n / 16, (width - 1) as nat).push(digit_of(n % 16))
    }
}

/// Whether every character of `s` is a lowercase hex digit.
pub open spec fn all_digits(s: Seq<char>) -> bool {
    forall|i: int| 0 <= i < s.len() ==> is_digit(#[trigger] s[i])
}

/// The number that the hex text `s` writes, most significant digit first.
pub open spec fn decode(s: Seq<char>) -> nat
    decreases s.len(),
{
    if s.len() == 0 {
        0
    } else {
        decode(s.drop_last()) * 16 + value_of(s.last())
    }
}

/// Distinct numbers below sixteen have distinct digits, so a digit's value is
/// the number it was written from.
pub proof fn lemma_value_of_digit(d: nat)
    requires
        d < 16,
    ensures
        is_digit(digit_of(d)),
        value_of(digit_of(d)) == d,
{
    let c = digit_of(d);
    let v = value_of(c);
    assert(v < 16 && digit_of(v) == c);
    assert(forall|a: nat, b: nat|
        a < 16 && b < 16 && #[trigger] digit_of(a) == #[trigger] digit_of(b) ==> a == b);
}

/// Writing gives exactly `width` characters, all of them hex digits.
pub proof fn lemma_encode_shape(n: nat, width: nat)
    ensures
        encode(n, width).len() == width,
        all_digits(encode(n, width)),
    decreases width,
{
    if width > 0 {
        lemma_encode_shape(n / 16, (width - 1) as nat);
        lemma_value_of_digit(n % 16);
        let s = encode(n, width);
        assert forall|i: int| 0 <= i < s.len() implies is_digit(#[trigger] s[i]) by {
            if i < width - 1 {
                assert(s[i] == encode(n / 16, (width - 1) as nat)[i]);
            }
        }
    }
}

/// Reading what was written gives the number back, when it fits the width.
pub proof fn lemma_decode_encode(n: nat, width: nat)
    requires
        n < pow16(width),
    ensures
        decode(encode(n, width)) == n,
    decreases width,
{
    if width > 0 {
        let rest = encode(n / 16, (width - 1) as nat);
        let s = encode(n, width);
        lemma_decode_encode(n / 16, (width - 1) as nat);
        lemma_value_of_digit(n % 16);
        assert(s.drop_last() =~= rest);
        assert(s.last() == digit_of(n % 16));
    }
}

/// The powers of sixteen that bound the identifiers and the flag byte.
pub proof fn lemma_pow16_widths()
    ensures
        pow16(2) == 0x100,
        pow16(16) == 0x1_0000_0000_0000_0000,
        pow16(32) == 0x1_0000_0000_0000_0000_0000_0000_0000_0000,
{
    reveal_with_fuel(pow16, 9);
    assert(pow16(8) == 0x1_0000_0000);
    assert(pow16(16) == 0x1_0000_0000 * pow16(8));
    assert(pow16(24) == 0x1_0000_0000 * pow16(16));
    assert(pow16(32) == 0x1_0000_0000 * pow16(24));
}

} // verus!
