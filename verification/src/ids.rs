use vstd::prelude::*;
use vstd::arithmetic::power::pow;

verus! {

/// Identifier of a record: the 128-bit value of a UUID, read big-endian, so
/// that ordering identifiers by this value orders them as UUIDs are ordered.
#[derive(Clone, Copy, Debug, Default, PartialEq, Eq, Structural, Hash, PartialOrd, Ord)]
pub struct Uuid(pub u128);

/// The lower-case hexadecimal digit for `d` (`0 <= d < 16`).
pub open spec fn hex_lower(d: int) -> char {
    if d < 10 {
        (d + 48) as char
    } else {
        (d + 87) as char
    }
}

/// The `i`-th hexadecimal digit of `v`, counting from the most significant.
pub open spec fn nibble(v: u128, i: int) -> int {
    (v as int / pow(16, (31 - i) as nat)) % 16
}

/// Position among the 32 digits of the character at position `k` of the
/// hyphenated form (`k` not a hyphen position).
pub open spec fn digit_index(k: int) -> int {
    if k < 8 {
        k
    } else if k < 13 {
        k - 1
    } else if k < 18 {
        k - 2
    } else if k < 23 {
        k - 3
    } else {
        k - 4
    }
}

/// The hyphenated lower-case text of a UUID: 8-4-4-4-12 hexadecimal digits.
pub open spec fn uuid_hyphenated(v: u128) -> Seq<char> {
    Seq::new(
        36,
        |k: int|
            if k == 8 || k == 13 || k == 18 || k == 23 {
                '-'
            } else {
                hex_lower(nibble(v, digit_index(k)))
            },
    )
}

/// The value that `uuid::Uuid::parse_str` reads from a text, if it accepts it.
pub uninterp spec fn uuid_parse(s: Seq<char>) -> Option<u128>;

/// Formats the identifier with `uuid::Uuid`'s `Display`, which writes the
/// hyphenated lower-case form (`LowerHex`).
#[verifier::external_body]
fn format_uuid(v: u128) -> (s: String)
    ensures
        s@ == uuid_hyphenated(v),
{
    uuid::Uuid::from_u128(v).to_string()
}

/// Parses a text with `uuid::Uuid::parse_str`. Claimed: the result is the
/// named parse of the text, and the hyphenated form of any value is read back
/// as that value (the crate documents that every form it writes is accepted).
#[verifier::external_body]
fn parse_uuid_text(s: &str) -> (r: Option<u128>)
    ensures
        r == uuid_parse(s@),
        forall|v: u128| s@ == uuid_hyphenated(v) ==> r == Some(v),
{
    uuid::Uuid::parse_str(s).ok().map(|u| u.as_u128())
}

/// A fresh random (version 4) identifier from `uuid::Uuid::new_v4`. Nothing
/// is claimed of the value: it comes from the operating system's random
/// source.
#[verifier::external_body]
pub(crate) fn random_uuid() -> (r: Uuid) {
    Uuid(uuid::Uuid::new_v4().as_u128())
}

/// Records that are identified by an identifier.
pub trait Id {
    spec fn id_view(&self) -> u128;

    /// The identifier of the record.
    fn id(&self) -> (r: Uuid)
        ensures
            r.0 == self.id_view(),
    ;
}

impl Uuid {
    /// The nil identifier (all zero bits).
    pub fn nil() -> (r: Uuid)
        ensures
            r.0 == 0,
    {
        Uuid(0)
    }

    /// The hyphenated lower-case text of the identifier, as stored in the
    /// database and shown to the user.
    pub fn to_string(&self) -> (s: String)
        ensures
            s@ == uuid_hyphenated(self.0),
    {
        format_uuid(self.0)
    }

    /// Reads an identifier from a text in any form the `uuid` crate accepts.
    pub fn parse(s: &str) -> (r: Option<Uuid>)
        ensures
            r matches Some(u) ==> uuid_parse(s@) == Some(u.0),
            r is None ==> uuid_parse(s@) is None,
            forall|v: u128| s@ == uuid_hyphenated(v) ==> r == Some(Uuid(v)),
    {
        match parse_uuid_text(s) {
            Some(v) => Some(Uuid(v)),
            None => None,
        }
    }
}

} // verus!
