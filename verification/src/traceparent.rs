//! The canonical text of a trace context: `00-<trace id>-<span id>-<flags>`,
//! with the trace identifier in 32 lowercase hex digits, the span identifier
//! in 16 and the flags in 2.

use vstd::prelude::*;
use crate::hex;

verus! {

/// The canonical text of the given parts. Of the flags only the sampled bit
/// is written.
pub open spec fn text(trace_id: u128, span_id: u64, flags: u8) -> Seq<char> {
    seq!['0', '0', '-'] + hex::encode(trace_id as nat, 32) + seq!['-'] + hex::encode(
        span_id as nat,
        16,
    ) + seq!['-'] + hex::encode((flags & 1) as nat, 2)
}

/// The trace identifier digits of a 55-character header.
pub open spec fn trace_id_digits(s: Seq<char>) -> Seq<char> {
    s.subrange(3, 35)
}

/// The span identifier digits of a 55-character header.
pub open spec fn span_id_digits(s: Seq<char>) -> Seq<char> {
    s.subrange(36, 52)
}

/// The flag digits of a 55-character header.
pub open spec fn flag_digits(s: Seq<char>) -> Seq<char> {
    s.subrange(53, 55)
}

/// Whether `s` is a canonical header of version `00` that names a span:
/// four fields of the fixed widths, separated by hyphens, in lowercase hex,
/// with neither identifier zero and a flag byte of at most 2.
pub open spec fn is_canonical(s: Seq<char>) -> bool {
    &&& s.len() == 55
    &&& s[0] == '0'
    &&& s[1] == '0'
    &&& s[2] == '-'
    &&& s[35] == '-'
    &&& s[52] == '-'
    &&& hex::all_digits(trace_id_digits(s))
    &&& hex::all_digits(span_id_digits(s))
    &&& hex::all_digits(flag_digits(s))
    &&& hex::decode(trace_id_digits(s)) != 0
    &&& hex::decode(span_id_digits(s)) != 0
    &&& hex::decode(flag_digits(s)) <= 2
}

/// The parts that a canonical header names: both identifiers, and of the
/// flag byte the sampled bit.
pub open spec fn canonical_parts(s: Seq<char>) -> (u128, u64, u8)
    recommends
        is_canonical(s),
{
    (
        hex::decode(trace_id_digits(s)) as u128,
        hex::decode(span_id_digits(s)) as u64,
        (hex::decode(flag_digits(s)) as u8) & 1,
    )
}

/// The sampled bit of a flag byte is 0 or 1, and masking it again changes
/// nothing.
pub proof fn lemma_sampled_bit(flags: u8)
    ensures
        flags & 1 <= 1,
        (flags & 1) & 1 == flags & 1,
        (flags & 1 == 1) == (flags % 2 == 1),
{
    assert(flags & 1 <= 1 && (flags & 1) & 1 == flags & 1 && ((flags & 1 == 1) == (flags % 2
        == 1))) by (bit_vector);
}

/// The text of a valid context is canonical, and names the parts it was
/// written from.
pub proof fn lemma_text_round_trip(trace_id: u128, span_id: u64, flags: u8)
    requires
        trace_id != 0,
        span_id != 0,
    ensures
        is_canonical(text(trace_id, span_id, flags)),
        canonical_parts(text(trace_id, span_id, flags)) == (trace_id, span_id, flags & 1),
{
    let s = text(trace_id, span_id, flags);
    let bit = flags & 1;
    lemma_sampled_bit(flags);
    hex::lemma_pow16_widths();
    hex::lemma_encode_shape(trace_id as nat, 32);
    hex::lemma_encode_shape(span_id as nat, 16);
    hex::lemma_encode_shape(bit as nat, 2);
    hex::lemma_decode_encode(trace_id as nat, 32);
    hex::lemma_decode_encode(span_id as nat, 16);
    hex::lemma_decode_encode(bit as nat, 2);
    assert(s.len() == 55);
    assert(trace_id_digits(s) =~= hex::encode(trace_id as nat, 32));
    assert(span_id_digits(s) =~= hex::encode(span_id as nat, 16));
    assert(flag_digits(s) =~= hex::encode(bit as nat, 2));
}

} // verus!
