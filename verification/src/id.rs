//! Identifiers of streams, clients and endpoints: 128-bit universally unique
//! identifiers, each kind printed with its own prefix.
use uuid::Uuid;
use vstd::arithmetic::power::pow;
use vstd::prelude::*;
use vstd::string::*;

verus! {

/// The bits that say "version 4" and "RFC 4122 variant" in a random identifier.
pub open spec fn is_version_4(v: u128) -> bool {
    v & 0x0000_0000_0000_F000_C000_0000_0000_0000u128
        == 0x0000_0000_0000_4000_8000_0000_0000_0000u128
}

/// The hexadecimal digit `d` (0 to 15), in lower case.
pub open spec fn hex_char(d: int) -> char {
    if d < 10 {
        crate::text::digit_char(d)
    } else if d == 10 {
        'a'
    } else if d == 11 {
        'b'
    } else if d == 12 {
        'c'
    } else if d == 13 {
        'd'
    } else if d == 14 {
        'e'
    } else {
        'f'
    }
}

/// The hexadecimal digit number `k` (0 to 31) of `v`, the most significant first.
pub open spec fn hex_digit(v: u128, k: int) -> char {
    hex_char((v as int / pow(16, (31 - k) as nat)) % 16)
}

/// `v` in the hyphenated form 8-4-4-4-12, in lower case.
pub open spec fn hyphenated(v: u128) -> Seq<char> {
    Seq::new(
        36,
        |i: int|
            if i == 8 || i == 13 || i == 18 || i == 23 {
                '-'
            } else if i < 8 {
                hex_digit(v, i)
            } else if i < 13 {
                hex_digit(v, i - 1)
            } else if i < 18 {
                hex_digit(v, i - 2)
            } else if i < 23 {
                hex_digit(v, i - 3)
            } else {
                hex_digit(v, i - 4)
            },
    )
}

/// What `Uuid::parse_str` reads from `text`, as one 128-bit number.
pub uninterp spec fn parsed_uuid(text: Seq<char>) -> Option<u128>;

/// Calls `uuid::Uuid::new_v4`: a random identifier, of which only the version and
/// variant bits are fixed.
#[verifier::external_body]
fn random_uuid() -> (v: u128)
    ensures
        is_version_4(v),
{
    Uuid::new_v4().as_u128()
}

/// Calls `<uuid::Uuid as Display>::fmt` (through `to_string`): the hyphenated form, in
/// lower case, from which `Uuid::parse_str` reads the same number back.
#[verifier::external_body]
pub(crate) fn uuid_text(v: u128) -> (r: String)
    ensures
        r@ == hyphenated(v),
        parsed_uuid(r@) == Some(v),
{
    Uuid::from_u128(v).to_string()
}

/// Calls `uuid::Uuid::parse_str`: the number that the text stands for, if it is in one of the
/// forms in which identifiers are written.
#[verifier::external_body]
pub(crate) fn parse_uuid(text: &str) -> (r: Option<u128>)
    ensures
        r == parsed_uuid(text@),
{
    Uuid::parse_str(text).ok().map(|u| u.as_u128())
}

/// Identifies one stream of remote traffic.
#[derive(Clone, Copy, Debug, PartialEq, Eq, Hash, Structural)]
pub struct StreamId {
    pub uuid: u128,
}

/// Identifies one connected client.
#[derive(Clone, Copy, Debug, PartialEq, Eq, Hash, Structural)]
pub struct ClientId {
    pub uuid: u128,
}

/// Identifies one endpoint of a client.
#[derive(Clone, Copy, Debug, PartialEq, Eq, Hash, Structural)]
pub struct EndpointId {
    pub uuid: u128,
}

impl Default for StreamId {
    /// The identifier whose bits are all zero.
    fn default() -> (r: Self)
        ensures
            r.uuid == 0,
    {
        StreamId { uuid: 0 }
    }
}

impl Default for ClientId {
    /// The identifier whose bits are all zero.
    fn default() -> (r: Self)
        ensures
            r.uuid == 0,
    {
        ClientId { uuid: 0 }
    }
}

impl Default for EndpointId {
    /// The identifier whose bits are all zero.
    fn default() -> (r: Self)
        ensures
            r.uuid == 0,
    {
        EndpointId { uuid: 0 }
    }
}

impl StreamId {
    /// How the identifier is printed.
    pub open spec fn text(self) -> Seq<char> {
        "stream_"@ + hyphenated(self.uuid)
    }

    /// A fresh random identifier.
    pub fn new() -> (r: Self)
        ensures
            is_version_4(r.uuid),
    {
        StreamId { uuid: random_uuid() }
    }

    /// `stream_` followed by the hyphenated identifier.
    pub fn to_string(&self) -> (r: String)
        ensures
            r@ == self.text(),
    {
        let t = uuid_text(self.uuid);
        crate::text::join("stream_", t.as_str())
    }
}

impl ClientId {
    /// How the identifier is printed.
    pub open spec fn text(self) -> Seq<char> {
        "client_"@ + hyphenated(self.uuid)
    }

    /// A fresh random identifier.
    pub fn new() -> (r: Self)
        ensures
            is_version_4(r.uuid),
    {
        ClientId { uuid: random_uuid() }
    }

    /// `client_` followed by the hyphenated identifier.
    pub fn to_string(&self) -> (r: String)
        ensures
            r@ == self.text(),
    {
        let t = uuid_text(self.uuid);
        crate::text::join("client_", t.as_str())
    }
}

impl EndpointId {
    /// How the identifier is printed.
    pub open spec fn text(self) -> Seq<char> {
        "endpoint_"@ + hyphenated(self.uuid)
    }

    /// A fresh random identifier.
    pub fn new() -> (r: Self)
        ensures
            is_version_4(r.uuid),
    {
        EndpointId { uuid: random_uuid() }
    }

    /// `endpoint_` followed by the hyphenated identifier.
    pub fn to_string(&self) -> (r: String)
        ensures
            r@ == self.text(),
    {
        let t = uuid_text(self.uuid);
        crate::text::join("endpoint_", t.as_str())
    }
}

} // verus!
