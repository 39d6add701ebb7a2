//! Thread identifiers.

use vstd::prelude::*;

verus! {

/// The identifier of a thread: the 128 bits of a UUID.
#[derive(Clone, Copy, Debug, PartialEq, Eq, Structural)]
pub struct ThreadId {
    pub bits: u128,
}

/// The bits of the UUID that `Uuid::parse_str` reads in a text, if it reads one.
pub uninterp spec fn uuid_bits(text: Seq<char>) -> Option<u128>;

/// The text that `Uuid`'s `Display` gives for some bits.
pub uninterp spec fn uuid_text(bits: u128) -> Seq<char>;

/// `uuid::Uuid::parse_str`: reads the simple, hyphenated, URN or braced form of a UUID.
#[verifier::external_body]
fn parse_uuid(text: &str) -> (r: Option<u128>)
    ensures
        r == uuid_bits(text@),
{
    uuid::Uuid::parse_str(text).ok().map(|id| id.as_u128())
}

/// `Display` of `uuid::Uuid`: 32 lower-case hexadecimal digits in the hyphenated form, which
/// `Uuid::parse_str` reads back.
#[verifier::external_body]
fn format_uuid(bits: u128) -> (r: String)
    ensures
        r@ == uuid_text(bits),
        uuid_bits(r@) == Some(bits),
{
    uuid::Uuid::from_u128(bits).to_string()
}

/// The bits are those of a random UUID: its version is 4 and its variant that of RFC 4122.
pub open spec fn are_random_bits(bits: u128) -> bool {
    (bits >> 76) & 0xf == 4 && (bits >> 62) & 0x3 == 2
}

/// `uuid::Uuid::new_v4`: the bits of a random UUID. Which bits come is left to chance; the version
/// is 4 and the variant that of RFC 4122.
#[verifier::external_body]
pub(crate) fn random_bits() -> (r: u128)
    ensures
        are_random_bits(r),
{
    uuid::Uuid::new_v4().as_u128()
}

/// The text of the UUID with some bits.
pub fn uuid_of(bits: u128) -> (r: String)
    ensures
        r@ == uuid_text(bits),
        uuid_bits(r@) == Some(bits),
{
    format_uuid(bits)
}

impl ThreadId {
    /// The identifier that `text` spells, if it spells one.
    pub fn from_string(text: &str) -> (r: Option<ThreadId>)
        ensures
            r == thread_id_of(text@),
    {
        match parse_uuid(text) {
            Some(bits) => Some(ThreadId { bits }),
            None => None,
        }
    }

    /// The text of the identifier; `from_string` reads it back.
    pub fn text(&self) -> (r: String)
        ensures
            r@ == uuid_text(self.bits),
            thread_id_of(r@) == Some(*self),
    {
        format_uuid(self.bits)
    }
}

/// The identifier that a text spells, if it spells one.
pub open spec fn thread_id_of(text: Seq<char>) -> Option<ThreadId> {
    match uuid_bits(text) {
        Some(bits) => Some(ThreadId { bits }),
        None => None,
    }
}

/// The texts of optional identifiers.
pub open spec fn optional_id_text(id: Option<ThreadId>) -> Option<Seq<char>> {
    match id {
        Some(id) => Some(uuid_text(id.bits)),
        None => None,
    }
}

} // verus!
