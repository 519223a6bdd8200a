//! The JSON that crosses the queue and comes back from the downstream
//! service, read and written through `serde_json`.

use vstd::prelude::*;
use crate::hex::digit_of;

verus! {

/// The integer that the JSON document `text` holds under `name`: present
/// where `text` is a JSON object with a member `name` that is an integer in
/// the range of `i64`.
pub uninterp spec fn integer_member(text: Seq<char>, name: Seq<char>) -> Option<i64>;

/// The string that the JSON document `text` holds under `name`: present
/// where `text` is a JSON object with a member `name` that is a string.
pub uninterp spec fn string_member(text: Seq<char>, name: Seq<char>) -> Option<Seq<char>>;

/// The JSON string literal for `text`, with its quotes and escapes.
pub uninterp spec fn string_literal(text: Seq<char>) -> Seq<char>;

/// The decimal digits of `n`, without leading zeros.
pub open spec fn decimal_digits(n: nat) -> Seq<char>
    decreases n,
{
    if n < 10 {
        seq![digit_of(n)]
    } else {
        decimal_digits(n / 10).push(digit_of(n % 10))
    }
}

/// The decimal text of `n`, with a minus sign where it is negative.
pub open spec fn decimal(n: int) -> Seq<char> {
    if n < 0 {
        seq!['-'] + decimal_digits((-n) as nat)
    } else {
        decimal_digits(n as nat)
    }
}

/// `serde_json::from_str` to a `Value`, then `Value::get` with `name` and
/// `Value::as_i64` on the member: the member as a number, or nothing where
/// the text does not parse, has no such member, or holds something else
/// there.
#[verifier::external_body]
pub(crate) fn read_integer_member(text: &str, name: &str) -> (found: Option<i64>)
    ensures
        found == integer_member(text@, name@),
{
    let value = serde_json::from_str::<serde_json::Value>(text).ok()?;
    value.get(name)?.as_i64()
}

/// `serde_json::from_str` to a `Value`, then `Value::get` with `name` and
/// `Value::as_str` on the member: the member as a string, or nothing where
/// the text does not parse, has no such member, or holds something else
/// there.
#[verifier::external_body]
pub(crate) fn read_string_member(text: &str, name: &str) -> (found: Option<String>)
    ensures
        crate::carrier::text_of(found) == string_member(text@, name@),
{
    let value = serde_json::from_str::<serde_json::Value>(text).ok()?;
    Some(value.get(name)?.as_str()?.to_string())
}

/// `serde_json::to_string` on a string: its JSON literal. Writing a string
/// cannot fail.
#[verifier::external_body]
pub(crate) fn write_string_literal(text: &str) -> (literal: String)
    ensures
        literal@ == string_literal(text@),
{
    serde_json::to_string(text).unwrap_or_default()
}

/// `serde_json::to_string` on an `i64`: its decimal text. Writing a number
/// cannot fail.
#[verifier::external_body]
pub(crate) fn write_integer(n: i64) -> (text: String)
    ensures
        text@ == decimal(n as int),
{
    serde_json::to_string(&n).unwrap_or_default()
}

} // verus!
