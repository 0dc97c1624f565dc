//! What callers in other languages see: registering their memory with the client's
//! fabric, and running RDMA transfers against it. The RESP channel coordinates the
//! transfers with the server, but the server reads and writes the registered region
//! directly.
//!
//! A pointer that a caller may leave null is an `Option` here.

use vstd::pervasive::unreached;
use vstd::prelude::*;
#[allow(unused_imports)]
use vstd::utf8::encode_utf8;

use crate::checksum::checksum;
#[allow(unused_imports)]
use crate::checksum::crc32c;
use crate::rdma::receipt::ReadReceipt;
use crate::rdma::setting::RdmaUnavailable;
#[allow(unused_imports)]
use crate::rdma::setting::RdmaUnavailableView;
#[allow(unused_imports)]
use crate::text::{ascii_bytes, lemma_ascii_bytes};

verus! {

/// Whether RDMA is part of a build.
#[derive(Debug, Clone, Copy, PartialEq, Eq, Structural)]
pub enum Support {
    /// It was left out.
    Absent,
    /// It is compiled in.
    CompiledIn,
}

/// Whether this build has RDMA compiled in.
pub fn rdma_available(support: Support) -> (available: bool)
    ensures
        available == (support == Support::CompiledIn),
{
    support == Support::CompiledIn
}

/// Whether this machine can actually carry an RDMA transfer.
///
/// Requires the build to have RDMA compiled in and the machine to have libfabric
/// installed and fabric hardware available. `ensure_loaded` says whether libfabric
/// loads, which only such a build asks, and `has_hardware` whether there is fabric
/// hardware, which is asked once libfabric has loaded.
pub fn rdma_usable<L: FnOnce() -> bool, H: FnOnce() -> bool>(
    support: Support,
    ensure_loaded: L,
    has_hardware: H,
) -> (usable: bool)
    requires
        support == Support::CompiledIn ==> ensure_loaded.requires(()),
        support == Support::CompiledIn && ensure_loaded.ensures((), true)
            ==> has_hardware.requires(()),
    ensures
        usable ==> {
            &&& support == Support::CompiledIn
            &&& ensure_loaded.ensures((), true)
            &&& has_hardware.ensures((), true)
        },
        !usable ==> {
            ||| support == Support::Absent
            ||| ensure_loaded.ensures((), false)
            ||| ensure_loaded.ensures((), true) && has_hardware.ensures((), false)
        },
{
    match support {
        Support::Absent => false,
        Support::CompiledIn => ensure_loaded() && has_hardware(),
    }
}

/// How a client delivers its replies.
#[derive(Debug, Clone, Copy, PartialEq, Eq, Structural)]
pub enum ClientType {
    /// To a caller that waits.
    SyncClient,
    /// Through callbacks.
    AsyncClient,
}

/// How a caller classifies a failed request.
#[derive(Debug, Clone, Copy, PartialEq, Eq, Structural)]
pub enum RequestErrorType {
    /// Nothing in particular.
    Unspecified,
    /// A transaction was aborted.
    ExecAbort,
    /// The request timed out.
    Timeout,
    /// The connection was lost.
    Disconnect,
}

/// A failed transfer, worded and classified.
#[derive(Debug, Clone, PartialEq, Eq)]
pub struct TransferFailure {
    /// What went wrong.
    pub message: String,
    /// How to classify it.
    pub error_type: RequestErrorType,
}

/// A registered region of caller-owned memory, held by a buffer `B`.
///
/// A transfer takes the region exclusively.
#[derive(Debug)]
pub struct RdmaRegion<B> {
    /// Taken out for the length of each transfer, which lends it to the server,
    /// and put back when the transfer hands it back. Stays empty only if a
    /// cancelled transfer could not close the region.
    buffer: Option<B>,
    capacity: usize,
}

/// The mathematical form of an [`RdmaRegion`].
pub struct RdmaRegionView<B> {
    pub buffer: Option<B>,
    pub capacity: usize,
}

impl<B> View for RdmaRegion<B> {
    type V = RdmaRegionView<B>;

    closed spec fn view(&self) -> RdmaRegionView<B> {
        RdmaRegionView { buffer: self.buffer, capacity: self.capacity }
    }
}

/// Why a transfer cannot use a region whose buffer was not handed back.
pub open spec fn lost_region() -> Seq<char> {
    "the region was lost when a cancelled transfer could not close it; free it and register the memory again"@
}

impl<B> RdmaRegion<B> {
    /// A region of this capacity.
    pub fn new(buffer: B, capacity: usize) -> (region: Self)
        ensures
            region@ == (RdmaRegionView { buffer: Some(buffer), capacity }),
    {
        RdmaRegion { buffer: Some(buffer), capacity }
    }

    /// Take the buffer out for a transfer, or say why there is none.
    pub fn take(&mut self) -> (taken: Result<B, RdmaResult>)
        ensures
            final(self)@ == (RdmaRegionView::<B> { buffer: None, capacity: old(self)@.capacity }),
            match old(self)@.buffer {
                Some(buffer) => taken == Ok::<B, RdmaResult>(buffer),
                None => taken is Err && taken->Err_0@ == rejected_result(lost_region()),
            },
    {
        match self.buffer.take() {
            Some(buffer) => Ok(buffer),
            None => Err(
                RdmaResult::rejected(
                    "the region was lost when a cancelled transfer could not close it; free it and register the memory again".to_string(),
                ),
            ),
        }
    }

    /// Put back what a transfer handed back.
    fn put_back(&mut self, buffer: Option<B>)
        ensures
            final(self)@ == (RdmaRegionView { buffer, capacity: old(self)@.capacity }),
    {
        self.buffer = buffer;
    }

    /// How many bytes the region covers.
    pub fn capacity(&self) -> (capacity: usize)
        ensures
            capacity == self@.capacity,
    {
        self.capacity
    }
}

/// The outcome of registering memory.
///
/// Exactly one field is set: `region` on success, `error_message` on failure. The
/// region outlives the registration.
#[derive(Debug)]
pub struct RdmaRegistration<B> {
    /// `None` on success, otherwise what describes the failure.
    pub error_message: Option<String>,
    /// `None` on failure, otherwise the registered region.
    pub region: Option<RdmaRegion<B>>,
}

/// The outcome of an RDMA transfer.
///
/// On success `error_message` is `None`.
#[derive(Debug, PartialEq, Eq)]
pub struct RdmaResult {
    /// `None` on success, otherwise what describes the failure.
    pub error_message: Option<String>,
    /// How to classify the failure. Meaningless where there is none.
    pub error_type: RequestErrorType,
    /// Read only: whether the key existed. A read of a missing key succeeds
    /// with this false and nothing written.
    pub found: bool,
    /// Read only: bytes the server transferred into the region.
    pub bytes_written: usize,
    /// Read only: whether `checksum` carries a value.
    pub has_checksum: bool,
    /// Read only: the CRC-32c the server reported over the transferred bytes.
    pub checksum: u32,
}

/// The mathematical form of an [`RdmaResult`].
pub struct RdmaResultView {
    pub error_message: Option<Seq<char>>,
    pub error_type: RequestErrorType,
    pub found: bool,
    pub bytes_written: usize,
    pub has_checksum: bool,
    pub checksum: u32,
}

impl View for RdmaResult {
    type V = RdmaResultView;

    open spec fn view(&self) -> RdmaResultView {
        RdmaResultView {
            error_message: match self.error_message {
                Some(message) => Some(message@),
                None => None,
            },
            error_type: self.error_type,
            found: self.found,
            bytes_written: self.bytes_written,
            has_checksum: self.has_checksum,
            checksum: self.checksum,
        }
    }
}

/// A transfer that moved nothing.
pub open spec fn nothing_moved(
    error_message: Option<Seq<char>>,
    error_type: RequestErrorType,
    found: bool,
) -> RdmaResultView {
    RdmaResultView {
        error_message,
        error_type,
        found,
        bytes_written: 0,
        has_checksum: false,
        checksum: 0,
    }
}

/// A read of a missing key.
pub open spec fn missing_result() -> RdmaResultView {
    nothing_moved(None, RequestErrorType::Unspecified, false)
}

/// A write that was stored.
pub open spec fn stored_result() -> RdmaResultView {
    nothing_moved(None, RequestErrorType::Unspecified, true)
}

/// A read that landed.
pub open spec fn transferred_result(receipt: ReadReceipt) -> RdmaResultView {
    RdmaResultView {
        error_message: None,
        error_type: RequestErrorType::Unspecified,
        found: true,
        bytes_written: receipt.bytes_written,
        has_checksum: receipt.checksum is Some,
        checksum: match receipt.checksum {
            Some(checksum) => checksum,
            None => 0,
        },
    }
}

/// A transfer that failed.
pub open spec fn failed_result(message: Seq<char>, error_type: RequestErrorType) -> RdmaResultView {
    nothing_moved(Some(c_text(message)), error_type, false)
}

/// A call that was refused.
pub open spec fn rejected_result(message: Seq<char>) -> RdmaResultView {
    failed_result(message, RequestErrorType::Unspecified)
}

impl RdmaResult {
    /// A read of a missing key.
    pub fn missing() -> (result: Self)
        ensures
            result@ == missing_result(),
    {
        RdmaResult {
            error_message: None,
            error_type: RequestErrorType::Unspecified,
            found: false,
            bytes_written: 0,
            has_checksum: false,
            checksum: 0,
        }
    }

    /// A write that was stored.
    pub fn stored() -> (result: Self)
        ensures
            result@ == stored_result(),
    {
        RdmaResult {
            error_message: None,
            error_type: RequestErrorType::Unspecified,
            found: true,
            bytes_written: 0,
            has_checksum: false,
            checksum: 0,
        }
    }

    /// A read that landed.
    pub fn transferred(receipt: &ReadReceipt) -> (result: Self)
        ensures
            result@ == transferred_result(*receipt),
            result.error_message is None,
            result.found,
            result.bytes_written == receipt.bytes_written,
            result.has_checksum == (receipt.checksum is Some),
            receipt.checksum is Some ==> result.checksum == receipt.checksum->0,
            receipt.checksum is None ==> result.checksum == 0,
    {
        RdmaResult {
            error_message: None,
            error_type: RequestErrorType::Unspecified,
            found: true,
            bytes_written: receipt.bytes_written,
            has_checksum: receipt.checksum.is_some(),
            checksum: match receipt.checksum {
                Some(checksum) => checksum,
                None => 0,
            },
        }
    }

    /// A transfer that failed.
    pub fn failed(message: String, error_type: RequestErrorType) -> (result: Self)
        ensures
            result@ == failed_result(message@, error_type),
            result.error_message is Some,
            result.error_type == error_type,
            !result.found && result.bytes_written == 0 && !result.has_checksum,
    {
        RdmaResult {
            error_message: Some(into_c_string(message)),
            error_type,
            found: false,
            bytes_written: 0,
            has_checksum: false,
            checksum: 0,
        }
    }

    /// A caller mistake rather than a transfer failure, e.g. a null pointer,
    /// a zero length, a client that cannot serve RDMA.
    pub fn rejected(message: String) -> (result: Self)
        ensures
            result@ == rejected_result(message@),
    {
        RdmaResult::failed(message, RequestErrorType::Unspecified)
    }
}

/// Text as it can cross the boundary, where a NUL byte would end it early.
pub open spec fn c_text(message: Seq<char>) -> Seq<char> {
    if encode_utf8(message).contains(0u8) {
        "RDMA error message contained a NUL byte"@
    } else {
        message
    }
}

/// An error message that can cross the boundary as a C string.
fn into_c_string(message: String) -> (crossing: String)
    ensures
        crossing@ == c_text(message@),
{
    let nul = {
        let bytes = message.as_str().as_bytes();
        let mut found = false;
        let mut at: usize = 0;
        while at < bytes.len()
            invariant
                at <= bytes@.len(),
                found == bytes@.take(at as int).contains(0u8),
            decreases bytes@.len() - at,
        {
            let ghost seen = bytes@.take(at as int);
            assert(bytes@.take(at + 1) =~= seen.push(bytes@[at as int]));
            assert(seen.push(bytes@[at as int])[at as int] == bytes@[at as int]);
            if found {
                let ghost earlier = seen.index_of(0u8);
                assert(seen.push(bytes@[at as int])[earlier] == 0u8);
            }
            if bytes[at] == 0 {
                found = true;
            }
            at = at + 1;
        }
        assert(bytes@.take(at as int) =~= bytes@);
        found
    };
    if nul {
        "RDMA error message contained a NUL byte".to_string()
    } else {
        message
    }
}

/// The error a build without RDMA support answers every call with.
fn not_compiled_in() -> (message: String)
    ensures
        message@ == RdmaUnavailableView::NotCompiledIn.message(),
{
    RdmaUnavailable::NotCompiledIn.message()
}

/// Why a client of this type cannot serve RDMA, if it cannot.
pub open spec fn unserved(client: ClientType) -> Option<Seq<char>> {
    match client {
        ClientType::SyncClient => None,
        ClientType::AsyncClient => Some(
            "RDMA is only available on synchronous clients; this client was created as asynchronous"@,
        ),
    }
}

/// Reject anything but a sync client.
pub fn require_sync_client(client: ClientType) -> (served: Result<(), String>)
    ensures
        match served {
            Ok(_) => unserved(client) is None,
            Err(message) => unserved(client) == Some(message@),
        },
{
    match client {
        ClientType::SyncClient => Ok(()),
        ClientType::AsyncClient => Err(
            "RDMA is only available on synchronous clients; this client was created as asynchronous".to_string(),
        ),
    }
}

/// CRC-32c of the `length` bytes at `data`.
///
/// True with the checksum in `out`. False when this build has no RDMA support,
/// or when the arguments do not describe readable bytes, leaving `out` untouched.
/// No bytes may come as a null pointer.
pub fn rdma_checksum(
    support: Support,
    data: Option<&[u8]>,
    length: usize,
    out: Option<&mut u32>,
) -> (computed: bool)
    requires
        data matches Some(bytes) ==> bytes@.len() == length,
    ensures
        computed == (support == Support::CompiledIn && out is Some && (data is Some || length
            == 0)),
        out matches Some(out) ==> *final(out) == if computed {
            crc32c(
                match data {
                    Some(bytes) => bytes@,
                    None => Seq::empty(),
                },
            )
        } else {
            *out
        },
{
    let out = match out {
        Some(out) => out,
        None => {
            return false;
        },
    };
    if data.is_none() && length != 0 {
        return false;
    }
    match support {
        Support::Absent => false,
        Support::CompiledIn => {
            match data {
                Some(bytes) => {
                    *out = checksum(bytes);
                },
                None => {
                    let nothing: [u8; 0] = [];
                    *out = checksum(&nothing);
                    assert(nothing@ =~= Seq::<u8>::empty());
                },
            }
            true
        },
    }
}

/// Why a registration is refused before the fabric is asked, if it is.
pub open spec fn registration_refusal(
    support: Support,
    client: Option<ClientType>,
    has_memory: bool,
    length: usize,
) -> Option<Seq<char>> {
    match client {
        None => Some("cannot register a region without a client"@),
        Some(client) => if !has_memory {
            Some("cannot register a null pointer"@)
        } else if length == 0 {
            Some("cannot register 0 bytes"@)
        } else if support == Support::Absent {
            Some(RdmaUnavailableView::NotCompiledIn.message())
        } else {
            unserved(client)
        },
    }
}

/// A registration that failed for this reason.
pub open spec fn failed_registration<B>(
    message: Seq<char>,
    registration: RdmaRegistration<B>,
) -> bool {
    &&& registration.region is None
    &&& registration.error_message is Some
    &&& registration.error_message->0@ == c_text(message)
}

/// What registering comes to, given what the fabric made of the memory.
pub open spec fn registered_region<B>(
    made: Result<(B, usize), String>,
    registration: RdmaRegistration<B>,
) -> bool {
    match made {
        Ok((buffer, capacity)) => {
            &&& registration.error_message is None
            &&& registration.region is Some
            &&& registration.region->0@ == (RdmaRegionView { buffer: Some(buffer), capacity })
        },
        Err(message) => failed_registration(message@, registration),
    }
}

fn registration_failed<B>(message: String) -> (registration: RdmaRegistration<B>)
    ensures
        failed_registration(message@, registration),
{
    RdmaRegistration { error_message: Some(into_c_string(message)), region: None }
}

/// Register caller-owned memory so the server can transfer data into or out of it:
/// `register` asks the client to, and says how many bytes the region covers, or what
/// went wrong.
pub fn register_region<M, B, F: FnOnce(M, usize) -> Result<(B, usize), String>>(
    support: Support,
    client: Option<ClientType>,
    memory: Option<M>,
    length: usize,
    register: F,
) -> (registration: RdmaRegistration<B>)
    requires
        registration_refusal(support, client, memory is Some, length) is None
            ==> register.requires((memory->0, length)),
    ensures
        registration.error_message is Some <==> registration.region is None,
        match registration_refusal(support, client, memory is Some, length) {
            Some(message) => failed_registration(message, registration),
            None => exists|made: Result<(B, usize), String>| #[trigger]
                register.ensures((memory->0, length), made) && registered_region(
                    made,
                    registration,
                ),
        },
{
    let client = match client {
        Some(client) => client,
        None => {
            return registration_failed("cannot register a region without a client".to_string());
        },
    };
    let memory = match memory {
        Some(memory) => memory,
        None => {
            return registration_failed("cannot register a null pointer".to_string());
        },
    };
    if length == 0 {
        return registration_failed("cannot register 0 bytes".to_string());
    }
    if support == Support::Absent {
        return registration_failed(not_compiled_in());
    }
    if let Err(message) = require_sync_client(client) {
        return registration_failed(message);
    }
    let made = register(memory, length);
    let ghost reported = made;
    assert(register.ensures((memory, length), reported));
    match made {
        Ok((buffer, capacity)) => RdmaRegistration {
            error_message: None,
            region: Some(RdmaRegion::new(buffer, capacity)),
        },
        Err(message) => registration_failed(message),
    }
}

/// How many bytes a region covers. 0 without one.
pub fn rdma_region_capacity<B>(support: Support, region: Option<&RdmaRegion<B>>) -> (capacity:
    usize)
    ensures
        capacity == match region {
            Some(region) => if support == Support::CompiledIn {
                region@.capacity
            } else {
                0
            },
            None => 0,
        },
{
    match region {
        None => 0,
        Some(region) => match support {
            Support::Absent => 0,
            Support::CompiledIn => region.capacity(),
        },
    }
}

/// The argument mistake of a transfer, if there is one.
pub open spec fn bad_transfer_args(
    has_client: bool,
    has_key: bool,
    has_region: bool,
) -> Option<Seq<char>> {
    if !has_client {
        Some("cannot transfer without a client"@)
    } else if !has_key {
        Some("cannot transfer without a key"@)
    } else if !has_region {
        Some("cannot transfer without a registered region"@)
    } else {
        None
    }
}

/// Reject the argument mistakes both transfers share, or `None` if they pass.
pub fn reject_bad_transfer_args(has_client: bool, has_key: bool, has_region: bool) -> (rejection:
    Option<RdmaResult>)
    ensures
        match bad_transfer_args(has_client, has_key, has_region) {
            Some(message) => rejection is Some && rejection->0@ == rejected_result(message),
            None => rejection is None,
        },
{
    if !has_client {
        return Some(RdmaResult::rejected("cannot transfer without a client".to_string()));
    }
    if !has_key {
        return Some(RdmaResult::rejected("cannot transfer without a key".to_string()));
    }
    if !has_region {
        return Some(
            RdmaResult::rejected("cannot transfer without a registered region".to_string()),
        );
    }
    None
}

/// Why a transfer is refused before it starts, if it is: an argument is missing, this
/// build or this client has no RDMA, or the region's buffer was never handed back.
pub open spec fn transfer_refusal<B>(
    support: Support,
    client: Option<ClientType>,
    has_key: bool,
    region: Option<RdmaRegionView<B>>,
) -> Option<Seq<char>> {
    match bad_transfer_args(client is Some, has_key, region is Some) {
        Some(message) => Some(message),
        None => if support == Support::Absent {
            Some(RdmaUnavailableView::NotCompiledIn.message())
        } else if unserved(client->0) is Some {
            unserved(client->0)
        } else if region->0.buffer is None {
            Some(lost_region())
        } else {
            None
        },
    }
}

/// A region whose buffer was not handed back serves no transfer, whoever asks.
pub proof fn a_lost_region_serves_no_transfer<B>(
    support: Support,
    client: Option<ClientType>,
    has_key: bool,
    region: RdmaRegionView<B>,
)
    requires
        region.buffer is None,
    ensures
        transfer_refusal(support, client, has_key, Some(region)) is Some,
{
}

/// A build without RDMA registers nothing and transfers nothing.
pub proof fn a_build_without_rdma_refuses_everything<B>(
    client: Option<ClientType>,
    has_memory: bool,
    length: usize,
    has_key: bool,
    region: Option<RdmaRegionView<B>>,
)
    ensures
        registration_refusal(Support::Absent, client, has_memory, length) is Some,
        transfer_refusal(Support::Absent, client, has_key, region) is Some,
{
}

/// How a read ended, for the caller.
pub open spec fn get_result(outcome: Result<Option<ReadReceipt>, TransferFailure>) -> RdmaResultView {
    match outcome {
        Ok(Some(receipt)) => transferred_result(receipt),
        Ok(None) => missing_result(),
        Err(failure) => failed_result(failure.message@, failure.error_type),
    }
}

/// How a write ended, for the caller.
pub open spec fn set_result(outcome: Result<(), TransferFailure>) -> RdmaResultView {
    match outcome {
        Ok(_) => stored_result(),
        Err(failure) => failed_result(failure.message@, failure.error_type),
    }
}

/// What a region given by pointer holds.
pub open spec fn given<B>(region: Option<&mut RdmaRegion<B>>) -> Option<RdmaRegionView<B>> {
    match region {
        Some(region) => Some(region@),
        None => None,
    }
}

/// Read a value directly into the `[offset, offset + length)` window of a
/// registered region: `transfer` has the client do it, lends it the region's buffer,
/// and hands the buffer back unless a cancelled transfer could not close the region.
///
/// Has no timeout, waits for the server to complete the transfer so memory
/// is not left in an undefined state.
pub fn rdma_get<
    B,
    F: FnOnce(&[u8], B, usize, usize) -> (
        Option<B>,
        Result<Option<ReadReceipt>, TransferFailure>,
    ),
>(
    support: Support,
    client: Option<ClientType>,
    key: Option<&[u8]>,
    region: Option<&mut RdmaRegion<B>>,
    offset: usize,
    length: usize,
    transfer: F,
) -> (result: RdmaResult)
    requires
        transfer_refusal(support, client, key is Some, given(region)) is None
            ==> transfer.requires((key->0, given(region)->0.buffer->0, offset, length)),
    ensures
        match transfer_refusal(support, client, key is Some, given(region)) {
            Some(message) => {
                &&& result@ == rejected_result(message)
                &&& region matches Some(region) ==> final(region)@ == region@
            },
            None => exists|
                handed_back: Option<B>,
                outcome: Result<Option<ReadReceipt>, TransferFailure>,
            |
                {
                    &&& #[trigger] transfer.ensures(
                        (key->0, given(region)->0.buffer->0, offset, length),
                        (handed_back, outcome),
                    )
                    &&& result@ == get_result(outcome)
                    &&& outcome is Ok && outcome->Ok_0 is Some ==> {
                        &&& result.error_message is None
                        &&& result.found
                        &&& result.bytes_written == outcome->Ok_0->0.bytes_written
                        &&& result.has_checksum == (outcome->Ok_0->0.checksum is Some)
                        &&& result.has_checksum ==> result.checksum
                            == outcome->Ok_0->0.checksum->0
                    }
                    &&& outcome is Ok && outcome->Ok_0 is None ==> {
                        &&& result.error_message is None
                        &&& !result.found
                        &&& result.bytes_written == 0
                    }
                    &&& outcome is Err ==> {
                        &&& result.error_message is Some
                        &&& result.error_type == outcome->Err_0.error_type
                        &&& !result.found
                    }
                    &&& region matches Some(region) && final(region)@ == (RdmaRegionView {
                        buffer: handed_back,
                        capacity: region@.capacity,
                    })
                },
        },
{
    if let Some(rejection) = reject_bad_transfer_args(
        client.is_some(),
        key.is_some(),
        region.is_some(),
    ) {
        return rejection;
    }
    if support == Support::Absent {
        return RdmaResult::rejected(not_compiled_in());
    }
    match (client, key, region) {
        (Some(client), Some(key), Some(region)) => {
            if let Err(message) = require_sync_client(client) {
                return RdmaResult::rejected(message);
            }
            let buffer = match region.take() {
                Ok(buffer) => buffer,
                Err(rejection) => {
                    return rejection;
                },
            };
            let (handed_back, outcome) = transfer(key, buffer, offset, length);
            let ghost reported = (handed_back, outcome);
            assert(transfer.ensures((key, buffer, offset, length), reported));
            region.put_back(handed_back);
            match outcome {
                Ok(Some(receipt)) => RdmaResult::transferred(&receipt),
                Ok(None) => RdmaResult::missing(),
                Err(failure) => RdmaResult::failed(failure.message, failure.error_type),
            }
        },
        _ => unreached(),
    }
}

/// Store a value the server reads directly out of the
/// `[offset, offset + length)` window of a registered region. `transfer` is that of
/// [`rdma_get`], for a write.
pub fn rdma_set<
    B,
    F: FnOnce(&[u8], B, usize, usize) -> (Option<B>, Result<(), TransferFailure>),
>(
    support: Support,
    client: Option<ClientType>,
    key: Option<&[u8]>,
    region: Option<&mut RdmaRegion<B>>,
    offset: usize,
    length: usize,
    transfer: F,
) -> (result: RdmaResult)
    requires
        transfer_refusal(support, client, key is Some, given(region)) is None
            ==> transfer.requires((key->0, given(region)->0.buffer->0, offset, length)),
    ensures
        match transfer_refusal(support, client, key is Some, given(region)) {
            Some(message) => {
                &&& result@ == rejected_result(message)
                &&& region matches Some(region) ==> final(region)@ == region@
            },
            None => exists|handed_back: Option<B>, outcome: Result<(), TransferFailure>|
                {
                    &&& #[trigger] transfer.ensures(
                        (key->0, given(region)->0.buffer->0, offset, length),
                        (handed_back, outcome),
                    )
                    &&& result@ == set_result(outcome)
                    &&& outcome is Ok ==> result.error_message is None && result.found
                    &&& outcome is Err ==> {
                        &&& result.error_message is Some
                        &&& result.error_type == outcome->Err_0.error_type
                        &&& !result.found
                    }
                    &&& region matches Some(region) && final(region)@ == (RdmaRegionView {
                        buffer: handed_back,
                        capacity: region@.capacity,
                    })
                },
        },
{
    if let Some(rejection) = reject_bad_transfer_args(
        client.is_some(),
        key.is_some(),
        region.is_some(),
    ) {
        return rejection;
    }
    if support == Support::Absent {
        return RdmaResult::rejected(not_compiled_in());
    }
    match (client, key, region) {
        (Some(client), Some(key), Some(region)) => {
            if let Err(message) = require_sync_client(client) {
                return RdmaResult::rejected(message);
            }
            let buffer = match region.take() {
                Ok(buffer) => buffer,
                Err(rejection) => {
                    return rejection;
                },
            };
            let (handed_back, outcome) = transfer(key, buffer, offset, length);
            let ghost reported = (handed_back, outcome);
            assert(transfer.ensures((key, buffer, offset, length), reported));
            region.put_back(handed_back);
            match outcome {
                Ok(_) => RdmaResult::stored(),
                Err(failure) => RdmaResult::failed(failure.message, failure.error_type),
            }
        },
        _ => unreached(),
    }
}

/// A read that ended with a receipt reports the receipt as it is: the key was found, just
/// as many bytes landed as it says, with or without a checksum, and the checksum, where
/// there is one, is its own.
pub proof fn a_read_reports_its_receipt(receipt: ReadReceipt)
    ensures
        get_result(Ok(Some(receipt))).error_message is None,
        get_result(Ok(Some(receipt))).found,
        get_result(Ok(Some(receipt))).bytes_written == receipt.bytes_written,
        get_result(Ok(Some(receipt))).has_checksum <==> receipt.checksum is Some,
        receipt.checksum matches Some(checksum) ==> get_result(Ok(Some(receipt))).checksum
            == checksum,
        receipt.checksum is None ==> get_result(Ok(Some(receipt))).checksum == 0,
        get_result(Ok(Some(receipt))).error_type == RequestErrorType::Unspecified,
{
}

/// A read of a missing key and a write that was stored are successes in which nothing
/// landed, told apart by whether the key was found.
pub proof fn nothing_lands_without_a_receipt()
    ensures
        get_result(Ok(None)).error_message is None && set_result(Ok(())).error_message is None,
        !get_result(Ok(None)).found && set_result(Ok(())).found,
        get_result(Ok(None)).bytes_written == 0 && set_result(Ok(())).bytes_written == 0,
        !get_result(Ok(None)).has_checksum && !set_result(Ok(())).has_checksum,
        get_result(Ok(None)).checksum == 0 && set_result(Ok(())).checksum == 0,
        get_result(Ok(None)).error_type == RequestErrorType::Unspecified,
        set_result(Ok(())).error_type == RequestErrorType::Unspecified,
{
}

/// A transfer that failed, a read or a write, says why and of what kind the failure was,
/// and reports that nothing was found and nothing landed.
pub proof fn a_failed_transfer_says_why(failure: TransferFailure)
    requires
        !encode_utf8(failure.message@).contains(0u8),
    ensures
        get_result(Err(failure)) == set_result(Err(failure)),
        get_result(Err(failure)).error_message == Some(failure.message@),
        get_result(Err(failure)).error_type == failure.error_type,
        !get_result(Err(failure)).found,
        get_result(Err(failure)).bytes_written == 0,
        !get_result(Err(failure)).has_checksum,
        get_result(Err(failure)).checksum == 0,
{
}

/// A message crosses the boundary as it is unless it holds a NUL byte, in which case that
/// is what is said in its place, and what crosses never holds one.
pub proof fn a_message_crosses_whole(message: Seq<char>)
    ensures
        !encode_utf8(message).contains(0u8) ==> c_text(message) == message,
        encode_utf8(message).contains(0u8) ==> c_text(message)
            == "RDMA error message contained a NUL byte"@,
        !encode_utf8(c_text(message)).contains(0u8),
{
    reveal_strlit("RDMA error message contained a NUL byte");
    let replacement = "RDMA error message contained a NUL byte"@;
    lemma_ascii_bytes(replacement);
    assert forall|i: int| 0 <= i < replacement.len() implies ascii_bytes(replacement)[i] != 0u8 by {
        assert(replacement[i] as u8 != 0u8);
    }
    assert(!encode_utf8(replacement).contains(0u8));
}

/// A transfer starts just when nothing is missing: a synchronous client of a build with
/// RDMA, a key, and a region that still has its buffer.
pub proof fn a_transfer_starts_when_nothing_is_missing<B>(
    support: Support,
    client: Option<ClientType>,
    has_key: bool,
    region: Option<RdmaRegionView<B>>,
)
    ensures
        transfer_refusal(support, client, has_key, region) is None <==> {
            &&& support == Support::CompiledIn
            &&& client == Some(ClientType::SyncClient)
            &&& has_key
            &&& region is Some
            &&& region->0.buffer is Some
        },
{
}

/// A missing argument is reported before anything else, whatever the build, and a
/// missing client before a missing key and that before a missing region.
pub proof fn missing_arguments_are_reported_in_order<B>(
    support: Support,
    client: ClientType,
    has_key: bool,
    region: Option<RdmaRegionView<B>>,
)
    ensures
        transfer_refusal(support, None, has_key, region) == Some(
            "cannot transfer without a client"@,
        ),
        transfer_refusal(support, Some(client), false, region) == Some(
            "cannot transfer without a key"@,
        ),
        transfer_refusal::<B>(support, Some(client), true, None) == Some(
            "cannot transfer without a registered region"@,
        ),
{
}

/// Where nothing is missing, a build without RDMA is reported before a client that is
/// asynchronous, and that before a region that was lost.
pub proof fn what_cannot_serve_is_reported_in_order<B>(
    support: Support,
    client: ClientType,
    region: RdmaRegionView<B>,
)
    ensures
        transfer_refusal(Support::Absent, Some(client), true, Some(region)) == Some(
            RdmaUnavailableView::NotCompiledIn.message(),
        ),
        transfer_refusal(
            Support::CompiledIn,
            Some(ClientType::AsyncClient),
            true,
            Some(region),
        ) == Some(
            "RDMA is only available on synchronous clients; this client was created as asynchronous"@,
        ),
        region.buffer is None ==> transfer_refusal(
            Support::CompiledIn,
            Some(ClientType::SyncClient),
            true,
            Some(region),
        ) == Some(
            "the region was lost when a cancelled transfer could not close it; free it and register the memory again"@,
        ),
{
}

/// A registration is refused for what stands first in this order: no client, no memory,
/// no length, a build without RDMA, a client that is asynchronous.
pub proof fn registrations_are_refused_in_order(
    support: Support,
    client: ClientType,
    has_memory: bool,
    length: usize,
)
    ensures
        registration_refusal(support, None, has_memory, length) == Some(
            "cannot register a region without a client"@,
        ),
        registration_refusal(support, Some(client), false, length) == Some(
            "cannot register a null pointer"@,
        ),
        registration_refusal(support, Some(client), true, 0) == Some("cannot register 0 bytes"@),
        length > 0 ==> registration_refusal(Support::Absent, Some(client), true, length) == Some(
            RdmaUnavailableView::NotCompiledIn.message(),
        ),
        length > 0 ==> registration_refusal(
            Support::CompiledIn,
            Some(ClientType::AsyncClient),
            true,
            length,
        ) == Some(
            "RDMA is only available on synchronous clients; this client was created as asynchronous"@,
        ),
{
}

/// A result is seen as it is, field by field.
pub proof fn a_result_is_seen_as_it_is(result: RdmaResult)
    ensures
        match result.error_message {
            Some(message) => result@.error_message == Some(message@),
            None => result@.error_message is None,
        },
        result@.error_type == result.error_type,
        result@.found == result.found,
        result@.bytes_written == result.bytes_written,
        result@.has_checksum == result.has_checksum,
        result@.checksum == result.checksum,
{
}

/// Memory is registered just when nothing is missing: a synchronous client of a build
/// with RDMA, and memory of some length.
pub proof fn memory_is_registered_when_nothing_is_missing(
    support: Support,
    client: Option<ClientType>,
    has_memory: bool,
    length: usize,
)
    ensures
        registration_refusal(support, client, has_memory, length) is None <==> {
            &&& support == Support::CompiledIn
            &&& client == Some(ClientType::SyncClient)
            &&& has_memory
            &&& length > 0
        },
{
}

/// A registration hands out the buffer and the capacity that the client made, or says
/// what went wrong, and never both.
pub proof fn a_registration_hands_out_what_was_made<B>(
    made: Result<(B, usize), String>,
    registration: RdmaRegistration<B>,
)
    requires
        registered_region(made, registration),
    ensures
        registration.region is Some <==> registration.error_message is None,
        made matches Ok((buffer, capacity)) ==> {
            &&& registration.region is Some
            &&& registration.region->0@.buffer == Some(buffer)
            &&& registration.region->0@.capacity == capacity
        },
        made matches Err(message) ==> registration.error_message is Some && (!encode_utf8(
            message@,
        ).contains(0u8) ==> registration.error_message->0@ == message@),
{
}

/// A call that was refused says why, of no particular kind, and reports that nothing was
/// found and nothing landed.
pub proof fn a_refused_call_says_why(message: Seq<char>)
    ensures
        rejected_result(message).error_message == Some(c_text(message)),
        rejected_result(message).error_type == RequestErrorType::Unspecified,
        !rejected_result(message).found,
        rejected_result(message).bytes_written == 0,
        !rejected_result(message).has_checksum,
        rejected_result(message).checksum == 0,
{
}

} // verus!
