//! Blob identifiers: 128-bit values in the version 7 UUID layout, which puts
//! the creation time in the leading bits.

use vstd::prelude::*;

verus! {

/// The identifier of a stored blob.
#[derive(Clone, Copy, Debug, PartialEq, Eq, Hash, Structural)]
pub struct BlobId {
    pub value: u128,
}

/// The value that `uuid::Uuid::try_parse` reads from `text`, the sixteen
/// bytes packed big-endian into one integer; `None` where it reports an
/// error. It accepts the simple, hyphenated, braced and URN forms.
pub uninterp spec fn parsed_uuid(text: Seq<char>) -> Option<u128>;

/// The lower-case hexadecimal digit for a number below sixteen.
pub open spec fn hex_char(nibble: u128) -> char {
    "0123456789abcdef"@[nibble as int]
}

/// The hexadecimal digit of `value` in place `k`, counted from the most
/// significant, which is place 0, to the least, which is place 31.
pub open spec fn hex_digit(value: u128, k: int) -> char {
    hex_char((value >> (((31 - k) * 4) as u128)) & 0xf)
}

/// The canonical text form of an identifier: its 32 hexadecimal digits in
/// lower case, in groups of 8, 4, 4, 4 and 12 with a hyphen between groups.
pub open spec fn uuid_text(value: u128) -> Seq<char> {
    Seq::new(
        36,
        |i: int|
            if i == 8 || i == 13 || i == 18 || i == 23 {
                '-'
            } else if i < 8 {
                hex_digit(value, i)
            } else if i < 13 {
                hex_digit(value, i - 1)
            } else if i < 18 {
                hex_digit(value, i - 2)
            } else if i < 23 {
                hex_digit(value, i - 3)
            } else {
                hex_digit(value, i - 4)
            },
    )
}

/// The version field of an identifier: bits 76 to 79.
pub open spec fn version_of(value: u128) -> u128 {
    (value >> 76) & 0xf
}

/// The variant field of an identifier: its bits 62 and 63.
pub open spec fn variant_of(value: u128) -> u128 {
    (value >> 62) & 0x3
}

/// Calls `uuid::Uuid::try_parse` and hands out the parsed identifier as an
/// integer (`Uuid::as_u128`). Trusted: the result is what `parsed_uuid` names.
#[verifier::external_body]
fn uuid_try_parse(text: &str) -> (value: Option<u128>)
    ensures
        value == parsed_uuid(text@),
{
    match uuid::Uuid::try_parse(text) {
        Ok(id) => Some(id.as_u128()),
        Err(_) => None,
    }
}

/// Calls `uuid::Uuid::now_v7`, which combines the clock with random bits.
/// Trusted: whatever comes back carries version 7 and the RFC variant; nothing
/// else is claimed of it.
#[verifier::external_body]
fn uuid_now_v7() -> (value: u128)
    ensures
        version_of(value) == 7,
        variant_of(value) == 2,
{
    uuid::Uuid::now_v7().as_u128()
}

/// Formats an identifier with `uuid::Uuid`'s `Display` (by way of
/// `Uuid::from_u128`). Trusted: that is the hyphenated lower-case form, and
/// `Uuid::try_parse` reads the identifier back from it.
#[verifier::external_body]
fn uuid_to_string(value: u128) -> (text: String)
    ensures
        text@ == uuid_text(value),
        parsed_uuid(text@) == Some(value),
{
    uuid::Uuid::from_u128(value).to_string()
}

impl BlobId {
    /// The identifier in its canonical text form.
    pub open spec fn text(self) -> Seq<char> {
        uuid_text(self.value)
    }

    /// The identifier in its canonical text form.
    pub fn to_text(&self) -> (text: String)
        ensures
            text@ == self.text(),
            BlobId::parsed(text@) == Some(*self),
    {
        uuid_to_string(self.value)
    }

    /// The identifier that `text` denotes, if it denotes one.
    pub open spec fn parsed(text: Seq<char>) -> Option<BlobId> {
        match parsed_uuid(text) {
            Some(value) => Some(BlobId { value }),
            None => None,
        }
    }

    /// Whether the identifier has the layout of a time-ordered (version 7) UUID.
    pub open spec fn is_time_ordered(self) -> bool {
        version_of(self.value) == 7 && variant_of(self.value) == 2
    }

    /// Draws a new time-ordered identifier. Two draws may or may not differ:
    /// the store, not the generator, is what rules out a reused identifier.
    pub fn generate() -> (id: BlobId)
        ensures
            id.is_time_ordered(),
    {
        BlobId { value: uuid_now_v7() }
    }

    /// Reads an identifier from its text form.
    pub fn parse(text: &str) -> (id: Option<BlobId>)
        ensures
            id == BlobId::parsed(text@),
    {
        match uuid_try_parse(text) {
            Some(value) => Some(BlobId { value }),
            None => None,
        }
    }
}

} // verus!
