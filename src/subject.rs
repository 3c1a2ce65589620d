//! Subject ids. A subject id is a UUID, held here as its 128-bit value; its
//! text form is what a token's `sub` claim carries.
use vstd::prelude::*;

verus! {

/// The lower-case hexadecimal digit for a value below 16.
pub open spec fn hex_char(n: u128) -> char {
    seq!['0', '1', '2', '3', '4', '5', '6', '7', '8', '9', 'a', 'b', 'c', 'd', 'e', 'f'][n as int]
}

/// The `i`-th hexadecimal digit of `v`, counted from the most significant.
pub open spec fn nibble(v: u128, i: int) -> u128 {
    (v >> ((124 - 4 * i) as u128)) & 15u128
}

/// The 32 hexadecimal digits of `v`, most significant first.
pub open spec fn hex_digits(v: u128) -> Seq<char> {
    Seq::new(32, |i: int| hex_char(nibble(v, i)))
}

/// The hyphenated text form of a subject id: 8-4-4-4-12 lower-case digits.
pub open spec fn subject_text(v: u128) -> Seq<char> {
    let h = hex_digits(v);
    h.subrange(0, 8) + seq!['-'] + h.subrange(8, 12) + seq!['-'] + h.subrange(12, 16) + seq!['-']
        + h.subrange(16, 20) + seq!['-'] + h.subrange(20, 32)
}

/// What `uuid::Uuid::parse_str` reads from a text: an id, or nothing.
pub uninterp spec fn uuid_parsed(s: Seq<char>) -> Option<u128>;

#[verifier::external_type_specification]
#[verifier::external_body]
pub struct ExUuidError(uuid::Error);

/// Relies on uuid's `Display` for `Uuid` (through `ToString`): the hyphenated
/// lower-case form of the id's sixteen bytes, taken most significant first,
/// which is the byte order of `Uuid::from_u128`.
#[verifier::external_body]
pub(crate) fn subject_to_string(id: u128) -> (r: String)
    ensures
        r@ == subject_text(id),
{
    uuid::Uuid::from_u128(id).to_string()
}

/// Relies on `uuid::Uuid::parse_str`: the outcome depends on the text alone,
/// and the hyphenated form of an id reads back as that id.
#[verifier::external_body]
fn uuid_parse_str(s: &str) -> (r: Result<u128, uuid::Error>)
    ensures
        r is Ok <==> uuid_parsed(s@) is Some,
        r is Ok ==> uuid_parsed(s@) == Some(r->Ok_0),
        forall|v: u128| #[trigger] subject_text(v) == s@ ==> r is Ok && r->Ok_0 == v,
{
    uuid::Uuid::parse_str(s).map(|u| u.as_u128())
}

/// Reads a subject id back from its text form.
pub fn parse_subject(s: &str) -> (r: Option<u128>)
    ensures
        r == uuid_parsed(s@),
        forall|v: u128| #[trigger] subject_text(v) == s@ ==> r == Some(v),
{
    match uuid_parse_str(s) {
        Ok(v) => Some(v),
        Err(_) => None,
    }
}

/// The text form of a subject id, as a token's `sub` claim carries it.
pub fn subject_string(id: u128) -> (r: String)
    ensures
        r@ == subject_text(id),
{
    subject_to_string(id)
}

} // verus!
