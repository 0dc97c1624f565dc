//! Where a transfer finds a client's registered memory.

use vstd::prelude::*;
#[allow(unused_imports)]
use vstd::utf8::encode_utf8;

use crate::hex;
#[allow(unused_imports)]
use crate::hex::{hex_bytes, hex_text};
use crate::text::{decimal_string, parse_u64};
#[allow(unused_imports)]
use crate::text::{decimal, decimal_round_trips, parsed_u64};

verus! {

/// Where in a client's registered memory a transfer should land or read from.
#[derive(Debug, Clone, PartialEq, Eq)]
pub struct RegionRef {
    /// The client endpoint's fabric address. Sent at handshake, not per transfer.
    pub address: Vec<u8>,
    /// The key a peer presents to access the registered region.
    pub remote_key: u64,
    /// The buffer's virtual address on providers that address by it, like efa, and 0
    /// where addressing is by offset into the region, like tcp.
    pub remote_address: u64,
}

/// The arguments a transfer carries: `<rkey> <remote-address>`.
pub open spec fn region_args(remote_key: u64, remote_address: u64) -> Seq<Seq<char>> {
    seq![decimal(remote_key as nat), decimal(remote_address as nat)]
}

/// The key and the remote address that two fields stand for.
pub open spec fn region_fields(fields: Seq<Seq<u8>>) -> Result<(u64, u64), RegionRefError> {
    if fields.len() != 2 {
        Err(RegionRefError::Arity)
    } else {
        match (parsed_u64(fields[0]), parsed_u64(fields[1])) {
            (Some(remote_key), Some(remote_address)) => Ok((remote_key, remote_address)),
            _ => Err(RegionRefError::Integer),
        }
    }
}

/// The contents of a list of borrowed byte strings.
pub open spec fn field_bytes(fields: Seq<&[u8]>) -> Seq<Seq<u8>> {
    Seq::new(fields.len(), |i: int| fields[i]@)
}

impl RegionRef {
    /// Command arguments a region reference occupies.
    pub const ARG_COUNT: usize = 2;

    /// The arguments a transfer carries: `<rkey> <remote-address>`.
    pub fn to_args(&self) -> (args: [String; 2])
        ensures
            args@.len() == Self::ARG_COUNT,
            forall|i: int|
                0 <= i < 2 ==> (#[trigger] args@[i])@ == region_args(
                    self.remote_key,
                    self.remote_address,
                )[i],
    {
        [decimal_string(self.remote_key), decimal_string(self.remote_address)]
    }

    /// Parse the two transfer fields
    pub fn from_fields(address: Vec<u8>, fields: &[&[u8]]) -> (region: Result<
        Self,
        RegionRefError,
    >)
        ensures
            match region {
                Ok(region) => region.address@ == address@ && region_fields(field_bytes(fields@))
                    == Ok::<(u64, u64), RegionRefError>((region.remote_key, region.remote_address)),
                Err(error) => region_fields(field_bytes(fields@)) == Err::<
                    (u64, u64),
                    RegionRefError,
                >(error),
            },
    {
        if fields.len() != Self::ARG_COUNT {
            return Err(RegionRefError::Arity);
        }
        let remote_key: u64 = match parse_ascii(fields[0]) {
            Ok(number) => number,
            Err(error) => {
                return Err(error);
            },
        };
        let remote_address: u64 = match parse_ascii(fields[1]) {
            Ok(number) => number,
            Err(error) => {
                return Err(error);
            },
        };
        Ok(RegionRef { address, remote_key, remote_address })
    }
}

/// Parsing the arguments of a region reference gives its key and remote address back.
pub proof fn region_ref_round_trips(remote_key: u64, remote_address: u64)
    ensures
        region_fields(
            region_args(remote_key, remote_address).map_values(
                |argument: Seq<char>| encode_utf8(argument),
            ),
        ) == Ok::<(u64, u64), RegionRefError>((remote_key, remote_address)),
{
    decimal_round_trips(remote_key);
    decimal_round_trips(remote_address);
}

/// Errors decoding a region reference.
#[derive(Debug, Clone, Copy, PartialEq, Eq, Structural)]
pub enum RegionRefError {
    /// Wrong number of fields.
    Arity,
    /// A hex field did not decode.
    Hex,
    /// An integer field did not parse.
    Integer,
}

impl RegionRefError {
    /// The error in words.
    pub open spec fn text(self) -> Seq<char> {
        match self {
            RegionRefError::Arity => "expected: rkey remote-address"@,
            RegionRefError::Hex => "invalid hex in address"@,
            RegionRefError::Integer => "invalid integer in region_ref"@,
        }
    }

    /// The error in words.
    pub fn message(self) -> (text: String)
        ensures
            text@ == self.text(),
    {
        match self {
            RegionRefError::Arity => "expected: rkey remote-address".to_string(),
            RegionRefError::Hex => "invalid hex in address".to_string(),
            RegionRefError::Integer => "invalid integer in region_ref".to_string(),
        }
    }
}

/// Parse a decimal integer from an ASCII argument.
pub(crate) fn parse_ascii(raw: &[u8]) -> (number: Result<u64, RegionRefError>)
    ensures
        match number {
            Ok(number) => parsed_u64(raw@) == Some(number),
            Err(error) => parsed_u64(raw@) is None && error == RegionRefError::Integer,
        },
{
    match parse_u64(raw) {
        Some(number) => Ok(number),
        None => Err(RegionRefError::Integer),
    }
}

/// Hex-encode opaque bytes for a RESP argument or reply.
pub fn encode_hex(bytes: &[u8]) -> (text: String)
    ensures
        text@ == hex_text(bytes@),
{
    hex::encode(bytes)
}

/// Decode an [`encode_hex`] string back to bytes.
pub fn decode_hex(text: &[u8]) -> (bytes: Result<Vec<u8>, RegionRefError>)
    ensures
        match bytes {
            Ok(bytes) => hex_bytes(text@) == Some(bytes@),
            Err(error) => hex_bytes(text@) is None && error == RegionRefError::Hex,
        },
{
    match hex::decode(text) {
        Some(bytes) => Ok(bytes),
        None => Err(RegionRefError::Hex),
    }
}

/// A region reference says its key first and its remote address second, and each is read
/// back from its own argument.
pub proof fn the_key_comes_first(remote_key: u64, remote_address: u64)
    ensures
        region_args(remote_key, remote_address).len() == 2,
        parsed_u64(encode_utf8(region_args(remote_key, remote_address)[0])) == Some(remote_key),
        parsed_u64(encode_utf8(region_args(remote_key, remote_address)[1])) == Some(remote_address),
        region_args(remote_key, remote_address)[0] == decimal(remote_key as nat),
        region_args(remote_key, remote_address)[1] == decimal(remote_address as nat),
{
    decimal_round_trips(remote_key);
    decimal_round_trips(remote_address);
}

/// A region reference is read from two integers, the key and then the remote address:
/// any other number of fields is an arity error, and two fields that are not both
/// integers are an integer error.
pub proof fn two_integers_make_a_region_ref(fields: Seq<Seq<u8>>)
    ensures
        match region_fields(fields) {
            Ok((remote_key, remote_address)) => {
                &&& fields.len() == 2
                &&& parsed_u64(fields[0]) == Some(remote_key)
                &&& parsed_u64(fields[1]) == Some(remote_address)
            },
            Err(RegionRefError::Arity) => fields.len() != 2,
            Err(RegionRefError::Integer) => fields.len() == 2 && (parsed_u64(fields[0]) is None
                || parsed_u64(fields[1]) is None),
            Err(RegionRefError::Hex) => false,
        },
{
}

/// The contents of fields are the fields, one for one and in order.
pub proof fn fields_are_seen_one_by_one(fields: Seq<&[u8]>)
    ensures
        field_bytes(fields).len() == fields.len(),
        forall|i: int| 0 <= i < fields.len() ==> #[trigger] field_bytes(fields)[i] == fields[i]@,
{
}

} // verus!
