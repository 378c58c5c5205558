use vstd::prelude::*;
use crate::model::valid_time;

verus! {

/// The lowercase hexadecimal digits.
pub open spec fn hex_chars() -> Seq<char> {
    seq!['0', '1', '2', '3', '4', '5', '6', '7', '8', '9', 'a', 'b', 'c', 'd', 'e', 'f']
}

/// The 32 hexadecimal digits of an identifier, most significant first.
pub open spec fn hex_nibbles(id: u128) -> Seq<char> {
    Seq::new(32, |i: int| hex_chars()[((id >> ((4 * (31 - i)) as u128)) & 0xfu128) as int])
}

/// The hyphenated text of a UUID: lowercase digits in groups of 8, 4, 4, 4
/// and 12.
pub open spec fn uuid_text(id: u128) -> Seq<char> {
    let h = hex_nibbles(id);
    h.subrange(0, 8) + seq!['-'] + h.subrange(8, 12) + seq!['-'] + h.subrange(12, 16) + seq!['-']
        + h.subrange(16, 20) + seq!['-'] + h.subrange(20, 32)
}

/// The UUID that a text denotes, if it is one.
pub uninterp spec fn uuid_parse(text: Seq<char>) -> Option<u128>;

/// Relies on time::OffsetDateTime::now_utc and unix_timestamp: the current
/// instant, which the type keeps within its calendar range.
#[verifier::external_body]
pub fn now_timestamp() -> (r: i64)
    ensures
        valid_time(r),
{
    time::OffsetDateTime::now_utc().unix_timestamp()
}

/// Relies on uuid::Uuid::new_v4: a random identifier.
#[verifier::external_body]
pub fn new_identifier() -> (r: u128) {
    uuid::Uuid::new_v4().as_u128()
}

/// Relies on uuid::Uuid's Display: the hyphenated lowercase form of the
/// big-endian bytes, which uuid::Uuid::parse_str reads back to the same value.
#[verifier::external_body]
pub fn identifier_text(id: u128) -> (r: String)
    ensures
        r@ == uuid_text(id),
        uuid_parse(r@) == Some(id),
{
    uuid::Uuid::from_u128(id).to_string()
}

/// Relies on uuid::Uuid::parse_str: the identifier a text denotes, if any.
#[verifier::external_body]
pub fn parse_identifier(text: &str) -> (r: Option<u128>)
    ensures
        r == uuid_parse(text@),
{
    uuid::Uuid::parse_str(text).ok().map(|u| u.as_u128())
}

} // verus!
