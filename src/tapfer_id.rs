use vstd::prelude::*;

use crate::error::{TapferError, TapferResult};

verus! {

#[verifier::external_type_specification]
#[verifier::external_body]
pub struct ExUuidError(uuid::Error);

/// What `uuid::Uuid::parse_str` makes of a text, as the 128-bit value of the
/// identifier, or `None` where it refuses the text.
pub uninterp spec fn uuid_parse(s: Seq<char>) -> Option<u128>;

/// The lower-case hexadecimal digit of a value below 16.
pub open spec fn hex_digit(n: u128) -> char {
    if n < 10 {
        (('0' as u128) + n) as char
    } else {
        (('a' as u128) + n - 10) as char
    }
}

/// The 32 hexadecimal digits of a 128-bit value, most significant first.
pub open spec fn hex32(v: u128) -> Seq<char> {
    Seq::new(32, |i: int| hex_digit((v >> (4 * (31 - i)) as u128) & 0xf))
}

/// The hyphenated form of a UUID: its digits in groups of 8, 4, 4, 4 and 12.
pub open spec fn uuid_text(v: u128) -> Seq<char> {
    let h = hex32(v);
    h.subrange(0, 8) + seq!['-'] + h.subrange(8, 12) + seq!['-'] + h.subrange(12, 16) + seq!['-']
        + h.subrange(16, 20) + seq!['-'] + h.subrange(20, 32)
}

/// The text with ASCII lower-case letters turned upper-case.
pub open spec fn ascii_upper(s: Seq<char>) -> Seq<char> {
    s.map_values(|c: char| if 'a' <= c <= 'z' { ((c as u32) - 32) as char } else { c })
}

/// A version 4 (random) UUID of the RFC 4122 variant: version nibble 4 and
/// variant bits `10`; the other 122 bits are random.
pub open spec fn is_v4(v: u128) -> bool {
    (v >> 76u128) & 0xfu128 == 4 && (v >> 62u128) & 0x3u128 == 2
}

/// Relies on `uuid::Uuid::new_v4`: random bits, with the version and variant
/// bits masked and set (`& 0xFFFFFFFFFFFF4FFFBFFFFFFFFFFFFFFF | 0x40008000000000000000`).
#[verifier::external_body]
fn random_uuid() -> (r: u128)
    ensures
        is_v4(r),
{
    uuid::Uuid::new_v4().as_u128()
}

/// Relies on `uuid::Uuid::parse_str`, whose result depends on the text alone.
#[verifier::external_body]
fn parse_uuid(s: &str) -> (r: Result<u128, uuid::Error>)
    ensures
        r is Ok <==> uuid_parse(s@) is Some,
        r is Ok ==> uuid_parse(s@) == Some(r->Ok_0),
{
    uuid::Uuid::parse_str(s).map(|u| u.as_u128())
}

/// Relies on `uuid::Uuid`'s `Display` (`from_u128` keeps the value's bytes
/// big-endian): the lower-case hyphenated form, which `parse_str` reads back
/// to the same value, whether its hexadecimal digits are lower- or
/// upper-case.
#[verifier::external_body]
fn format_uuid(v: u128) -> (r: String)
    ensures
        r@ == uuid_text(v),
        uuid_parse(r@) == Some(v),
        uuid_parse(ascii_upper(r@)) == Some(v),
{
    uuid::Uuid::from_u128(v).to_string()
}

/// The identity of one asset: a 128-bit value, in practice a random (version
/// 4) UUID.
#[derive(Debug, Clone, Copy, PartialEq, Eq, Structural, Hash)]
pub struct TapferId {
    inner: u128,
}

impl TapferId {
    pub closed spec fn value(self) -> u128 {
        self.inner
    }

    /// The identifier that a text stands for, if it stands for one.
    pub open spec fn parse_spec(s: Seq<char>) -> Option<TapferId> {
        match uuid_parse(s) {
            Some(v) => Some(TapferId::from_value(v)),
            None => None,
        }
    }

    pub closed spec fn from_value(v: u128) -> TapferId {
        TapferId { inner: v }
    }

    /// A fresh random identifier.
    pub fn new_random() -> (r: TapferId)
        ensures
            is_v4(r.value()),
    {
        TapferId { inner: random_uuid() }
    }

    /// The identifier with the given 128-bit value.
    pub fn from_id(id: u128) -> (r: TapferId)
        ensures
            r.value() == id,
    {
        TapferId { inner: id }
    }

    /// The 128-bit value of the identifier.
    pub fn as_u128(&self) -> (r: u128)
        ensures
            r == self.value(),
    {
        self.inner
    }

    /// Reads an identifier from its text.
    pub fn from_str(s: &str) -> (r: TapferResult<TapferId>)
        ensures
            r is Ok <==> TapferId::parse_spec(s@) is Some,
            r is Ok ==> TapferId::parse_spec(s@) == Some(r->Ok_0),
            r is Err ==> r matches Err(TapferError::InvalidId),
    {
        match parse_uuid(s) {
            Ok(v) => Ok(TapferId { inner: v }),
            Err(_) => Err(TapferError::InvalidId),
        }
    }

    /// The text of the identifier (the lower-case hyphenated UUID form).
    pub fn to_text(&self) -> (r: String)
        ensures
            r@ == uuid_text(self.value()),
            TapferId::parse_spec(r@) == Some(*self),
            TapferId::parse_spec(ascii_upper(r@)) == Some(*self),
    {
        format_uuid(self.inner)
    }
}

} // verus!
