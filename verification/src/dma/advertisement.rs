//! Where a transfer finds a client's registered memory.

use vstd::prelude::*;
#[allow(unused_imports)]
use vstd::utf8::encode_utf8;

use crate::dma::error::DmaError;
#[allow(unused_imports)]
use crate::dma::error::DmaErrorView;
use crate::hex;
#[allow(unused_imports)]
use crate::hex::{hex_bytes, hex_round_trips, hex_text};
use crate::text::decimal_string;
#[allow(unused_imports)]
use crate::text::{decimal, decimal_round_trips, parsed_u64};

verus! {

/// Where in a client's registered memory a transfer should land or read from.
#[derive(Debug, PartialEq, Eq)]
pub struct Advertisement {
    /// The client endpoint's fabric address.
    pub address: Vec<u8>,
    /// The key a peer presents to access the registered region.
    pub remote_key: u64,
    /// The buffer's virtual address on providers that address by it, like efa, and 0
    /// where addressing is by offset into the region, like tcp.
    pub remote_address: u64,
}

/// The mathematical form of an [`Advertisement`].
pub struct AdvertisementView {
    pub address: Seq<u8>,
    pub remote_key: u64,
    pub remote_address: u64,
}

impl View for Advertisement {
    type V = AdvertisementView;

    open spec fn view(&self) -> AdvertisementView {
        AdvertisementView {
            address: self.address@,
            remote_key: self.remote_key,
            remote_address: self.remote_address,
        }
    }
}

impl AdvertisementView {
    /// The arguments a transfer carries: `<address> <rkey> <remote-address>`.
    pub open spec fn args(self) -> Seq<Seq<char>> {
        seq![
            hex_text(self.address),
            decimal(self.remote_key as nat),
            decimal(self.remote_address as nat),
        ]
    }
}

impl Clone for Advertisement {
    fn clone(&self) -> (copy: Self)
        ensures
            copy@ == self@,
    {
        let address = self.address.clone();
        assert(address@ =~= self.address@);
        Advertisement {
            address,
            remote_key: self.remote_key,
            remote_address: self.remote_address,
        }
    }
}

impl Advertisement {
    /// The arguments a transfer carries: `<address> <rkey> <remote-address>`.
    pub fn to_args(&self) -> (args: [String; 3])
        ensures
            args@.len() == 3,
            forall|i: int| 0 <= i < 3 ==> (#[trigger] args@[i])@ == self@.args()[i],
    {
        [
            hex::encode(self.address.as_slice()),
            decimal_string(self.remote_key),
            decimal_string(self.remote_address),
        ]
    }
}

/// What the arguments of an advertisement say is what was advertised: the server reads
/// back the address, the key and the remote address that the client holds.
pub proof fn advertisement_reads_back(advertisement: AdvertisementView)
    ensures
        hex_bytes(encode_utf8(advertisement.args()[0])) == Some(advertisement.address),
        parsed_u64(encode_utf8(advertisement.args()[1])) == Some(advertisement.remote_key),
        parsed_u64(encode_utf8(advertisement.args()[2])) == Some(advertisement.remote_address),
{
    hex_round_trips(advertisement.address);
    decimal_round_trips(advertisement.remote_key);
    decimal_round_trips(advertisement.remote_address);
}

/// Errors decoding an advertisement.
#[derive(Debug, Clone, Copy, PartialEq, Eq, Structural)]
pub enum AdvertisementError {
    /// A hex field did not decode.
    Hex,
}

impl AdvertisementError {
    /// The error in words.
    pub open spec fn text(self) -> Seq<char> {
        "invalid hex in address"@
    }

    /// The error in words.
    pub fn message(self) -> (text: String)
        ensures
            text@ == self.text(),
    {
        "invalid hex in address".to_string()
    }
}

impl vstd::std_specs::convert::FromSpecImpl<AdvertisementError> for DmaError {
    open spec fn obeys_from_spec() -> bool {
        false
    }

    open spec fn from_spec(error: AdvertisementError) -> DmaError {
        arbitrary()
    }
}

impl From<AdvertisementError> for DmaError {
    fn from(error: AdvertisementError) -> (raised: Self)
        ensures
            raised@ == DmaErrorView::Protocol(error.text()),
    {
        DmaError::Protocol(error.message())
    }
}

/// Hex-encode opaque bytes for a command argument or reply.
pub fn encode_hex(bytes: &[u8]) -> (text: String)
    ensures
        text@ == hex_text(bytes@),
{
    hex::encode(bytes)
}

/// Decode an [`encode_hex`] string back to bytes.
pub fn decode_hex(text: &[u8]) -> (bytes: Result<Vec<u8>, AdvertisementError>)
    ensures
        match bytes {
            Ok(bytes) => hex_bytes(text@) == Some(bytes@),
            Err(error) => hex_bytes(text@) is None && error == AdvertisementError::Hex,
        },
{
    match hex::decode(text) {
        Some(bytes) => Ok(bytes),
        None => Err(AdvertisementError::Hex),
    }
}

/// An advertisement is written as its address in hexadecimal, and its key and remote
/// address in plain decimal, in this order.
pub proof fn an_advertisement_is_written_plainly(advertisement: AdvertisementView)
    ensures
        advertisement.args().len() == 3,
        advertisement.args()[0] == hex_text(advertisement.address),
        advertisement.args()[1] == decimal(advertisement.remote_key as nat),
        advertisement.args()[2] == decimal(advertisement.remote_address as nat),
{
}

/// An advertisement is seen as it is, field by field.
pub proof fn an_advertisement_is_seen_as_it_is(advertisement: Advertisement)
    ensures
        advertisement@.address == advertisement.address@,
        advertisement@.remote_key == advertisement.remote_key,
        advertisement@.remote_address == advertisement.remote_address,
{
}

} // verus!
