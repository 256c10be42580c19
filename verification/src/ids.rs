//! Identifiers: the 128-bit UUIDs that name users, posts and tags.
use vstd::prelude::*;

verus! {

/// The error that `uuid::Uuid::parse_str` reports.
#[verifier::external_type_specification]
#[verifier::external_body]
pub struct ExUuidError(uuid::Error);

/// What `uuid::Uuid::parse_str` makes of a text: the UUID's value as a
/// big-endian 128-bit integer, or nothing where the text is no UUID.
pub uninterp spec fn uuid_parsed(text: Seq<char>) -> Option<u128>;

/// The lower-case hexadecimal digit of a value below 16.
pub open spec fn hex_digit(d: int) -> char {
    seq!['0', '1', '2', '3', '4', '5', '6', '7', '8', '9', 'a', 'b', 'c', 'd', 'e', 'f'][d]
}

/// The last `n` hexadecimal digits of `v`, most significant first.
pub open spec fn hex_digits(v: nat, n: nat) -> Seq<char>
    decreases n,
{
    if n == 0 {
        seq![]
    } else {
        hex_digits(v / 16, (n - 1) as nat).push(hex_digit((v % 16) as int))
    }
}

/// The text that `uuid::Uuid`'s `Display` writes for a UUID with the given
/// big-endian value: its 32 lower-case hexadecimal digits, in groups of 8, 4,
/// 4, 4 and 12 joined by hyphens.
pub open spec fn uuid_hyphenated(value: u128) -> Seq<char> {
    let h = hex_digits(value as nat, 32);
    h.subrange(0, 8) + seq!['-'] + h.subrange(8, 12) + seq!['-'] + h.subrange(12, 16) + seq!['-']
        + h.subrange(16, 20) + seq!['-'] + h.subrange(20, 32)
}

/// `hex_digits` writes exactly `n` digits.
pub proof fn lemma_hex_digits_len(v: nat, n: nat)
    ensures
        hex_digits(v, n).len() == n,
    decreases n,
{
    if n > 0 {
        lemma_hex_digits_len(v / 16, (n - 1) as nat);
    }
}

/// A hyphenated UUID is 36 characters long.
pub proof fn lemma_uuid_hyphenated_len(value: u128)
    ensures
        uuid_hyphenated(value).len() == 36,
{
    lemma_hex_digits_len(value as nat, 32);
}

/// A UUID of version 4 (random) and of the RFC 9562 variant.
pub open spec fn uuid_is_v4(value: u128) -> bool {
    &&& (value >> 76u32) & 0xfu128 == 4
    &&& (value >> 62u32) & 0x3u128 == 2
}

/// Calls `uuid::Uuid::parse_str`. Trusted: the result is the named parse of
/// the text, and a hyphenated text that `Display` wrote parses back to the
/// same value (the crate documents both forms).
#[verifier::external_body]
pub(crate) fn parse_uuid(text: &str) -> (r: Result<u128, uuid::Error>)
    ensures
        r is Ok ==> uuid_parsed(text@) == Some(r->Ok_0),
        r is Err <==> uuid_parsed(text@) is None,
        forall|v: u128| text@ == #[trigger] uuid_hyphenated(v) ==> (r is Ok && r->Ok_0 == v),
{
    match uuid::Uuid::parse_str(text) {
        Ok(u) => Ok(u.as_u128()),
        Err(e) => Err(e),
    }
}

/// Calls `uuid::Uuid::from_u128` and its `Display`. Trusted: the text is
/// the hyphenated lower-case form (the crate's `fmt.rs`), which `parse_str`
/// reads back.
#[verifier::external_body]
pub(crate) fn uuid_to_string(value: u128) -> (r: String)
    ensures
        r@ == uuid_hyphenated(value),
        uuid_parsed(r@) == Some(value),
{
    uuid::Uuid::from_u128(value).to_string()
}

/// Calls `uuid::Uuid::new_v4`. Trusted: the value is random, with the
/// version and variant bits that the crate's source masks in.
#[verifier::external_body]
pub(crate) fn new_uuid_v4() -> (r: u128)
    ensures
        uuid_is_v4(r),
{
    uuid::Uuid::new_v4().as_u128()
}

/// Calls `Display` on a `uuid::Error`. Nothing is stated of the text.
#[verifier::external_body]
pub(crate) fn uuid_error_text(e: &uuid::Error) -> (r: String) {
    e.to_string()
}

} // verus!
