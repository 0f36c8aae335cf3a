//! Decoding of the odd encodings the status topics use: base64-packed
//! hardware addresses and node identities sent as UUID strings, with the
//! all-zero UUID standing for "none".

use vstd::prelude::*;

verus! {

/// What `base64`'s standard-alphabet decode returns for an input, `None`
/// standing for a decode error; the result depends on the characters alone.
pub uninterp spec fn base64_decode_of(s: Seq<char>) -> Option<Seq<u8>>;

/// Relies on `base64::engine::general_purpose::STANDARD.decode`: the
/// decoded bytes are a function of the input characters alone.
#[verifier::external_body]
fn base64_decode(s: &str) -> (r: Option<Vec<u8>>)
    ensures
        match r {
            Some(v) => base64_decode_of(s@) == Some(v@),
            None => base64_decode_of(s@) is None,
        },
{
    base64::Engine::decode(&base64::engine::general_purpose::STANDARD, s).ok()
}

/// What `uuid::Uuid::parse_str` returns for an input, as the UUID's
/// 128-bit integer, `None` standing for a parse error; the result depends
/// on the characters alone.
pub uninterp spec fn uuid_of(s: Seq<char>) -> Option<u128>;

/// Relies on `uuid::Uuid::parse_str` (and `Uuid::as_u128` for the integer
/// form): the parsed value is a function of the input characters alone.
#[verifier::external_body]
fn parse_uuid_u128(s: &str) -> (r: Option<u128>)
    ensures
        r == uuid_of(s@),
{
    match uuid::Uuid::parse_str(s) {
        Ok(u) => Some(u.as_u128()),
        Err(_) => None,
    }
}

/// A hardware address: the raw six or eight bytes the wire carries,
/// base64-encoded.
#[derive(Clone, Copy, Debug, PartialEq, Eq)]
pub enum MacAddr {
    Mac6([u8; 6]),
    Mac8([u8; 8]),
}

impl MacAddr {
    /// The address bytes.
    pub open spec fn bytes_view(self) -> Seq<u8> {
        match self {
            MacAddr::Mac6(a) => a@,
            MacAddr::Mac8(a) => a@,
        }
    }
}

/// Why a hardware address failed to decode.
#[derive(Clone, Copy, Debug, PartialEq, Eq, Structural)]
pub enum MacParseError {
    /// The field was not valid base64.
    NotBase64,
    /// The decoded bytes were neither six nor eight long.
    BadLength,
}

/// An address from its decoded bytes: exactly six or eight bytes are
/// accepted, any other length is rejected.
pub fn mac_from_bytes(bytes: &Vec<u8>) -> (r: Result<MacAddr, MacParseError>)
    ensures
        bytes@.len() == 6 ==> (r matches Ok(m) && m.bytes_view() == bytes@),
        bytes@.len() == 8 ==> (r matches Ok(m) && m.bytes_view() == bytes@),
        bytes@.len() != 6 && bytes@.len() != 8 ==> r == Err::<MacAddr, _>(
            MacParseError::BadLength,
        ),
{
    if bytes.len() == 6 {
        let a = [bytes[0], bytes[1], bytes[2], bytes[3], bytes[4], bytes[5]];
        proof {
            assert(a@ =~= bytes@);
        }
        Ok(MacAddr::Mac6(a))
    } else if bytes.len() == 8 {
        let a = [
            bytes[0],
            bytes[1],
            bytes[2],
            bytes[3],
            bytes[4],
            bytes[5],
            bytes[6],
            bytes[7],
        ];
        proof {
            assert(a@ =~= bytes@);
        }
        Ok(MacAddr::Mac8(a))
    } else {
        Err(MacParseError::BadLength)
    }
}

/// Decode an optional base64-encoded hardware address field: an absent
/// field is no address, bad base64 or a decoded length other than six or
/// eight bytes is an error.
pub fn mac_from_base64(s: Option<&str>) -> (r: Result<Option<MacAddr>, MacParseError>)
    ensures
        match s {
            None => r == Ok::<Option<MacAddr>, MacParseError>(None),
            Some(t) => match base64_decode_of(t@) {
                None => r == Err::<Option<MacAddr>, _>(MacParseError::NotBase64),
                Some(bytes) => {
                    if bytes.len() == 6 || bytes.len() == 8 {
                        (r matches Ok(m) && m matches Some(mac) && mac.bytes_view() == bytes)
                    } else {
                        r == Err::<Option<MacAddr>, _>(MacParseError::BadLength)
                    }
                },
            },
        },
{
    match s {
        None => Ok(None),
        Some(t) => {
            match base64_decode(t) {
                None => Err(MacParseError::NotBase64),
                Some(bytes) => {
                    match mac_from_bytes(&bytes) {
                        Ok(mac) => Ok(Some(mac)),
                        Err(e) => Err(e),
                    }
                },
            }
        },
    }
}

/// Why a node identity field failed to parse.
#[derive(Clone, Copy, Debug, PartialEq, Eq, Structural)]
pub enum UuidParseError {
    /// The field held text that is not a UUID.
    NotAUuid,
}

/// Parse a node identity sent as a UUID string: the all-zero UUID stands
/// for "none", any other text must parse as a UUID and yields its 128-bit
/// value.
pub fn parse_node_uuid(s: &str) -> (r: Result<Option<u128>, UuidParseError>)
    ensures
        s@ == "00000000-0000-0000-0000-000000000000"@ ==> r == Ok::<Option<u128>, UuidParseError>(
            None,
        ),
        s@ != "00000000-0000-0000-0000-000000000000"@ ==> match uuid_of(s@) {
            Some(u) => r == Ok::<_, UuidParseError>(Some(u)),
            None => r == Err::<Option<u128>, _>(UuidParseError::NotAUuid),
        },
{
    if crate::text::str_eq(s, "00000000-0000-0000-0000-000000000000") {
        Ok(None)
    } else {
        match parse_uuid_u128(s) {
            Some(u) => Ok(Some(u)),
            None => Err(UuidParseError::NotAUuid),
        }
    }
}

} // verus!
