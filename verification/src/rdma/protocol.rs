//! The RESP side of the RDMA commands: commands as the `redis` crate sends them, its
//! replies read back, and failures as request errors.

use vstd::prelude::*;
use vstd::string::StringExecFns;
#[allow(unused_imports)]
use vstd::utf8::{encode_utf8, encode_utf8_decode_utf8, is_ascii_chars};

use crate::hex;
#[allow(unused_imports)]
use crate::hex::{
    all_hex, decoded, hex_bytes, hex_lists_round_trip, hex_round_trips, hex_text,
};
use crate::rdma::command::{hello, RdmaCommand};
#[allow(unused_imports)]
use crate::rdma::command::{hello_layout, RdmaCommandView};
use crate::rdma::error::RdmaError;
#[allow(unused_imports)]
use crate::rdma::error::RdmaErrorView;
#[allow(unused_imports)]
use crate::rdma::receipt::accepted;
use crate::rdma::receipt::{ReadReceipt, TransferReply};
use crate::rdma::region_ref::RegionRefError;
use crate::rdma::session::Handshake;
use crate::resp::{
    build_command, pair_of, read_reply, read_strings, render_reply, ErrorKind, Reply,
    RequestError,
};
#[allow(unused_imports)]
use crate::resp::{
    byte_strings, command_arguments, kind_name, pair, reply_content, reply_items,
    reply_rendering, reply_shape, reply_strings, request_outcome, strings_view, wire_arguments,
    ReplyItem, ReplyView, RequestErrorView, ShapeView,
};
use crate::text::{push_decimal, spells_out};
#[allow(unused_imports)]
use crate::text::{
    ascii_text, decimal, holds, lemma_ascii_bytes, lemma_holds, same_letter,
    spelling_goes_by_characters, spells, text_of_bytes_keeps_them,
};

verus! {

/// What a command puts on the wire: its name, then its arguments.
pub open spec fn on_the_wire(command: RdmaCommandView) -> Seq<Option<Seq<u8>>> {
    wire_arguments(command.name, command.arguments)
}

/// Build a command of the `redis` crate from an [`RdmaCommand`].
pub fn redis_command(command: &RdmaCommand) -> (built: redis::Cmd)
    ensures
        command_arguments(built) == on_the_wire(command@),
        command_arguments(built).len() == command@.arguments.len() + 1,
        command_arguments(built)[0] == Some(encode_utf8(command@.name)),
        forall|i: int|
            0 <= i < command@.arguments.len() ==> command_arguments(built)[i + 1] == Some(
                #[trigger] command@.arguments[i],
            ),
{
    build_command(command.name(), command.arguments())
}

/// `LO.HELLO <client-address>`
pub fn hello_command(client_address: &[u8]) -> (command: redis::Cmd)
    ensures
        command_arguments(command) == on_the_wire(hello_layout(client_address@)),
{
    redis_command(&hello(client_address))
}

// ---------------------------------------------------------------------------
// Failures
// ---------------------------------------------------------------------------

/// How every cancellation's message begins. The Python client recognises a
/// cancellation by it, so it must not change without changing that too.
pub const CANCELLED: &'static str = "RDMA transfer cancelled";

/// A transfer given up for this reason.
pub open spec fn cancelled_error(reason: Seq<char>) -> RequestErrorView {
    RequestErrorView::Raised { kind: ErrorKind::ClientError, description: CANCELLED@, detail: reason }
}

/// The request error that an RDMA failure is. A revoked region is a cancellation.
pub open spec fn request_error(error: RdmaErrorView) -> RequestErrorView {
    match error {
        RdmaErrorView::Revoked => cancelled_error(error.message()),
        _ => RequestErrorView::Raised {
            kind: match error {
                RdmaErrorView::Protocol(_) => ErrorKind::TypeError,
                RdmaErrorView::ByteCountMismatch { .. } => ErrorKind::ClientError,
                RdmaErrorView::ChecksumMismatch { .. } => ErrorKind::ClientError,
                RdmaErrorView::PayloadTooLarge { .. } => ErrorKind::UserOperationError,
                RdmaErrorView::Fabric { .. } => ErrorKind::IoError,
                _ => ErrorKind::InvalidClientConfig,
            },
            description: "RDMA error"@,
            detail: error.message(),
        },
    }
}

/// A reply that could not be read, for this reason.
pub open spec fn unreadable(reason: Seq<char>) -> RequestErrorView {
    request_error(RdmaErrorView::Protocol(reason))
}

/// A configuration that cannot be used, for this reason.
pub open spec fn unusable(reason: Seq<char>) -> RequestErrorView {
    request_error(RdmaErrorView::Configuration(reason))
}

/// Turn an RDMA failure into the error type the rest of the client carries.
pub fn as_redis_error(error: RdmaError) -> (raised: RequestError)
    ensures
        raised@ == request_error(error@),
{
    let kind = match &error {
        RdmaError::Revoked => {
            return cancelled(error.message());
        },
        RdmaError::Protocol(_) => ErrorKind::TypeError,
        RdmaError::ByteCountMismatch { .. } | RdmaError::ChecksumMismatch { .. } =>
            ErrorKind::ClientError,
        RdmaError::PayloadTooLarge { .. } => ErrorKind::UserOperationError,
        RdmaError::Fabric { .. } => ErrorKind::IoError,
        RdmaError::Configuration(_) | RdmaError::LibfabricUnavailable { .. } =>
            ErrorKind::InvalidClientConfig,
    };
    RequestError::Raised { kind, description: "RDMA error", detail: error.message() }
}

/// A reply this client could not read.
fn protocol_error(message: String) -> (raised: RequestError)
    ensures
        raised@ == unreadable(message@),
{
    as_redis_error(RdmaError::Protocol(message))
}

/// A configuration failure.
pub fn configuration_error(message: String) -> (raised: RequestError)
    ensures
        raised@ == unusable(message@),
{
    as_redis_error(RdmaError::Configuration(message))
}

/// A transfer given up because its region was revoked, usually by closing the
/// client. Never retried: the region it needs is gone.
pub fn cancelled(reason: String) -> (raised: RequestError)
    ensures
        raised@ == cancelled_error(reason@),
{
    RequestError::Raised { kind: ErrorKind::ClientError, description: CANCELLED, detail: reason }
}

/// Every cancellation, and the failure of a revoked region among them, is told by how
/// its message begins.
pub proof fn cancellations_begin_with_the_marker(reason: Seq<char>)
    ensures
        cancelled_error(reason).message().take(CANCELLED@.len() as int) == CANCELLED@,
        request_error(RdmaErrorView::Revoked).message().take(CANCELLED@.len() as int)
            == CANCELLED@,
{
    assert(cancelled_error(reason).message().take(CANCELLED@.len() as int) =~= CANCELLED@);
    assert(request_error(RdmaErrorView::Revoked).message().take(CANCELLED@.len() as int)
        =~= CANCELLED@);
}

// ---------------------------------------------------------------------------
// Replies
// ---------------------------------------------------------------------------

/// What the numbers of a read reply amount to, as a request.
pub open spec fn wire_receipt(bytes: i64, checksum: Option<i64>) -> Result<
    Option<ReadReceipt>,
    RequestErrorView,
> {
    match accepted(bytes, checksum) {
        Ok(receipt) => Ok(Some(receipt)),
        Err(error) => Err(request_error(error)),
    }
}

/// What a read reply amounts to: nil for a missing key, a byte count, or a
/// `[bytes, checksum]` pair. Anything else is a protocol error, which shows the reply
/// as `rendering` has it.
pub open spec fn receipt_of(reply: ReplyView, rendering: Seq<char>) -> Result<
    Option<ReadReceipt>,
    RequestErrorView,
> {
    match reply {
        ReplyView::Nil => Ok(None),
        ReplyView::Int(bytes) => wire_receipt(bytes, None),
        ReplyView::Array(items) => match pair(items) {
            Some((bytes, checksum)) => wire_receipt(bytes, Some(checksum)),
            None => Err(
                unreadable("expected [bytes, checksum], got "@ + decimal(items.len()) + " elements"@),
            ),
        },
        _ => Err(unreadable("unexpected reply "@ + rendering)),
    }
}

/// Parse a read reply: nil for a missing key, a byte count, or a
/// `[bytes, checksum]` pair.
pub fn parse_receipt(reply: redis::Value) -> (receipt: Result<Option<ReadReceipt>, RequestError>)
    ensures
        request_outcome(receipt) == receipt_of(reply_content(reply), reply_rendering(reply)),
{
    let rendering = render_reply(&reply);
    receipt_from(read_reply(&reply), rendering)
}

/// Read a read reply that a client has destructured; `rendering` is how a protocol
/// error shows it.
pub fn receipt_from(reply: Reply, rendering: String) -> (receipt: Result<
    Option<ReadReceipt>,
    RequestError,
>)
    ensures
        request_outcome(receipt) == receipt_of(reply@, rendering@),
{
    let (bytes, checksum): (i64, Option<i64>) = match reply {
        Reply::Nil => {
            return Ok(None);
        },
        Reply::Int(bytes) => (bytes, None),
        Reply::Array(items) => match pair_of(&items) {
            Some((bytes, checksum)) => (bytes, Some(checksum)),
            None => {
                let mut text = "expected [bytes, checksum], got ".to_string();
                push_decimal(&mut text, items.len() as u64);
                text.append(" elements");
                return Err(protocol_error(text));
            },
        },
        _ => {
            let mut text = "unexpected reply ".to_string();
            text.append(rendering.as_str());
            return Err(protocol_error(text));
        },
    };
    match ReadReceipt::from_wire(bytes, checksum) {
        Ok(receipt) => Ok(Some(receipt)),
        Err(error) => Err(as_redis_error(error)),
    }
}

/// Whether a reply acknowledges a write: the status `OK`, in capitals or not.
pub open spec fn acknowledges(reply: ReplyView) -> bool {
    match reply {
        ReplyView::Okay => true,
        ReplyView::SimpleString(status) => spells(encode_utf8(status), "ok"@),
        _ => false,
    }
}

/// What a write reply amounts to; a protocol error shows it as `rendering` has it.
pub open spec fn write_ack_of(reply: ReplyView, rendering: Seq<char>) -> Result<
    (),
    RequestErrorView,
> {
    if acknowledges(reply) {
        Ok(())
    } else {
        Err(unreadable("expected OK from lo.set, got "@ + rendering))
    }
}

/// Check a write reply. `LO.SET` answers `OK` on success.
pub fn parse_write_ack(reply: redis::Value) -> (acknowledged: Result<(), RequestError>)
    ensures
        request_outcome(acknowledged) == write_ack_of(reply_content(reply), reply_rendering(reply)),
{
    let rendering = render_reply(&reply);
    write_ack_from(read_reply(&reply), rendering)
}

/// Check a write reply that a client has destructured; `rendering` is how a protocol
/// error shows it.
pub fn write_ack_from(reply: Reply, rendering: String) -> (acknowledged: Result<(), RequestError>)
    ensures
        request_outcome(acknowledged) == write_ack_of(reply@, rendering@),
{
    proof {
        reveal_strlit("ok");
    }
    let okay = match &reply {
        Reply::Okay => true,
        Reply::SimpleString(status) => spells_out(status.as_str().as_bytes(), "ok"),
        _ => false,
    };
    if okay {
        Ok(())
    } else {
        let mut text = "expected OK from lo.set, got ".to_string();
        text.append(rendering.as_str());
        Err(protocol_error(text))
    }
}

/// A write is acknowledged by `OK` in any mixture of capitals.
pub proof fn ok_acknowledges_in_any_case(status: Seq<char>)
    requires
        status.len() == 2,
        status[0] == 'o' || status[0] == 'O',
        status[1] == 'k' || status[1] == 'K',
    ensures
        acknowledges(ReplyView::SimpleString(status)),
{
    reveal_strlit("ok");
    assert(is_ascii_chars(status));
    lemma_ascii_bytes(status);
}

/// How a read ended, given its receipt.
pub open spec fn read_end(receipt: Result<Option<ReadReceipt>, RequestErrorView>) -> Result<
    TransferReply,
    RequestErrorView,
> {
    match receipt {
        Ok(Some(receipt)) => Ok(TransferReply::Read(receipt)),
        Ok(None) => Ok(TransferReply::Missing),
        Err(error) => Err(error),
    }
}

/// How a write ended, given whether it was acknowledged.
pub open spec fn write_end(acknowledged: Result<(), RequestErrorView>) -> Result<
    TransferReply,
    RequestErrorView,
> {
    match acknowledged {
        Ok(_) => Ok(TransferReply::Stored),
        Err(error) => Err(error),
    }
}

/// Parse a `LO.GET` reply into what ends the loan.
pub fn parse_read_reply(reply: redis::Value) -> (end: Result<TransferReply, RequestError>)
    ensures
        request_outcome(end) == read_end(receipt_of(reply_content(reply), reply_rendering(reply))),
{
    match parse_receipt(reply) {
        Ok(Some(receipt)) => Ok(TransferReply::Read(receipt)),
        Ok(None) => Ok(TransferReply::Missing),
        Err(error) => Err(error),
    }
}

/// Parse a `LO.SET` reply into what ends the loan.
pub fn parse_write_reply(reply: redis::Value) -> (end: Result<TransferReply, RequestError>)
    ensures
        request_outcome(end) == write_end(
            write_ack_of(reply_content(reply), reply_rendering(reply)),
        ),
{
    match parse_write_ack(reply) {
        Ok(_) => Ok(TransferReply::Stored),
        Err(error) => Err(error),
    }
}

/// What a `LO.HELLO` reply says once it is a list of strings, or the text of why it is
/// none: at least one fabric address, each in hexadecimal.
pub open spec fn hello_of(strings: Result<Seq<Seq<char>>, Seq<char>>) -> Result<
    Seq<Seq<u8>>,
    RequestErrorView,
> {
    match strings {
        Err(error) => Err(unreadable("lo.hello: "@ + error)),
        Ok(encoded) => if encoded.len() == 0 {
            Err(unreadable("lo.hello returned no addresses"@))
        } else if all_hex(encoded) {
            Ok(decoded(encoded))
        } else {
            Err(unreadable(RegionRefError::Hex.text()))
        },
    }
}

/// What parsing a handshake came to, in mathematical form.
pub open spec fn handshake_outcome(handshake: Result<Handshake, RequestError>) -> Result<
    Seq<Seq<u8>>,
    RequestErrorView,
> {
    match handshake {
        Ok(handshake) => Ok(byte_strings(handshake.peers@)),
        Err(error) => Err(error@),
    }
}

/// Parse `LO.HELLO` into every fabric address the server may initiate from.
pub fn parse_hello(reply: redis::Value) -> (handshake: Result<Handshake, RequestError>)
    ensures
        handshake_outcome(handshake) == hello_of(reply_strings(reply)),
{
    match read_strings(&reply) {
        Ok(encoded) => hello_from(Ok(encoded)),
        Err(error) => hello_from(Err(RequestError::Reported(error).message())),
    }
}

/// Read a `LO.HELLO` reply that a client has destructured into strings, or the text of
/// why it could not.
pub fn hello_from(strings: Result<Vec<String>, String>) -> (handshake: Result<
    Handshake,
    RequestError,
>)
    ensures
        handshake_outcome(handshake) == hello_of(strings_view(strings)),
{
    let encoded = match strings {
        Ok(encoded) => encoded,
        Err(error) => {
            let mut text = "lo.hello: ".to_string();
            text.append(error.as_str());
            return Err(protocol_error(text));
        },
    };
    if encoded.len() == 0 {
        return Err(protocol_error("lo.hello returned no addresses".to_string()));
    }
    match hex::decode_all(&encoded) {
        Some(peers) => Ok(Handshake { peers }),
        None => Err(protocol_error(RegionRefError::Hex.message())),
    }
}

/// A node's addresses, sent in hexadecimal, are learned as they are and in order.
pub proof fn hello_reads_back(addresses: Seq<Seq<u8>>)
    requires
        addresses.len() > 0,
    ensures
        hello_of(Ok(addresses.map_values(|address: Seq<u8>| hex_text(address)))) == Ok::<
            Seq<Seq<u8>>,
            RequestErrorView,
        >(addresses),
{
    hex_lists_round_trip(addresses);
}

/// A client's address, sent in the handshake, is read back by the node as it is.
pub proof fn client_address_reads_back(client_address: Seq<u8>)
    ensures
        hex_bytes(hello_layout(client_address).arguments[0]) == Some(client_address),
{
    hex_round_trips(client_address);
}

/// Whether a read reply came to these very numbers, or to none where they do not fit.
pub open spec fn read_carries(
    receipt: Result<Option<ReadReceipt>, RequestErrorView>,
    bytes: int,
    checksum: Option<int>,
) -> bool {
    if 0 <= bytes <= usize::MAX && (checksum is Some ==> 0 <= checksum->0 <= u32::MAX) {
        &&& receipt is Ok
        &&& receipt->Ok_0 is Some
        &&& receipt->Ok_0->0.bytes_written as int == bytes
        &&& match (receipt->Ok_0->0.checksum, checksum) {
            (Some(carried), Some(checksum)) => carried as int == checksum,
            (None, None) => true,
            _ => false,
        }
    } else {
        receipt is Err
    }
}

/// A read reply is read by its shape: nil is a missing key, an integer is a byte count,
/// an array of two integers is a byte count and a checksum, whose numbers the receipt
/// carries as they are, and nothing else is a receipt.
pub proof fn a_read_reply_is_read_by_its_shape(value: redis::Value, rendering: Seq<char>)
    ensures
        ({
            let receipt = receipt_of(reply_content(value), rendering);
            let items = reply_items(value);
            match reply_shape(value) {
                ShapeView::Nil => receipt is Ok && receipt->Ok_0 is None,
                ShapeView::Int(bytes) => read_carries(receipt, bytes as int, None),
                ShapeView::Array => if items.len() == 2 {
                    match (reply_shape(items[0]), reply_shape(items[1])) {
                        (ShapeView::Int(bytes), ShapeView::Int(checksum)) => read_carries(
                            receipt,
                            bytes as int,
                            Some(checksum as int),
                        ),
                        _ => receipt is Err,
                    }
                } else {
                    receipt is Err
                },
                _ => receipt is Err,
            }
        }),
{
}

/// A read ends missing just when the key was, and with its receipt just when there is
/// one; a write ends stored just when it was acknowledged. Neither is taken for the
/// other, and a failure stays one.
pub proof fn a_transfer_ends_as_it_was_answered(
    receipt: Result<Option<ReadReceipt>, RequestErrorView>,
    acknowledged: Result<(), RequestErrorView>,
)
    ensures
        match read_end(receipt) {
            Ok(TransferReply::Missing) => receipt is Ok && receipt->Ok_0 is None,
            Ok(TransferReply::Read(read)) => receipt is Ok && receipt->Ok_0 == Some(read),
            Ok(TransferReply::Stored) => false,
            Err(error) => receipt is Err && receipt->Err_0 == error,
        },
        match write_end(acknowledged) {
            Ok(end) => end is Stored && acknowledged is Ok,
            Err(error) => acknowledged is Err && acknowledged->Err_0 == error,
        },
{
}

/// A write is acknowledged by the status `OK`, two letters in any mixture of capitals,
/// and by nothing else.
pub proof fn only_ok_acknowledges(value: redis::Value, rendering: Seq<char>)
    ensures
        write_ack_of(reply_content(value), rendering) is Ok <==> match reply_shape(value) {
            ShapeView::Okay => true,
            ShapeView::SimpleString(status) => status.len() == 2 && (status[0] == 'o' || status[0]
                == 'O') && (status[1] == 'k' || status[1] == 'K'),
            _ => false,
        },
{
    if let ShapeView::SimpleString(status) = reply_shape(value) {
        let bytes = encode_utf8(status);
        reveal_strlit("ok");
        spelling_goes_by_characters(bytes, "ok"@);
        if spells(bytes, "ok"@) {
            assert(same_letter(bytes[0], 'o' as u8));
            assert(same_letter(bytes[1], 'k' as u8));
            let text = ascii_text(bytes);
            assert(is_ascii_chars(text));
            lemma_ascii_bytes(text);
            text_of_bytes_keeps_them(bytes);
            encode_utf8_decode_utf8(text);
            encode_utf8_decode_utf8(status);
            assert(status == text);
        }
        if status.len() == 2 && (status[0] == 'o' || status[0] == 'O') && (status[1] == 'k'
            || status[1] == 'K') {
            ok_acknowledges_in_any_case(status);
        }
    }
}

/// A handshake reply gives every address it lists, in order, and at least one: a reply
/// that lists none, or one that is not hexadecimal, is refused.
pub proof fn hello_gives_every_address(encoded: Seq<Seq<char>>, at: int)
    requires
        0 <= at < encoded.len(),
    ensures
        match hello_of(Ok(encoded)) {
            Ok(peers) => peers.len() == encoded.len() && hex_bytes(encode_utf8(encoded[at]))
                == Some(peers[at]),
            Err(_) => exists|i: int|
                0 <= i < encoded.len() && hex_bytes(#[trigger] encode_utf8(encoded[i])) is None,
        },
        hello_of(Ok(Seq::empty())) is Err,
        forall|error: Seq<char>| (#[trigger] hello_of(Err(error))) is Err,
{
}

/// The kind of a failed request goes by what failed, not by its details: a failure of
/// the fabric is an I/O error, a bad reply a type error, a value that does not fit a
/// mistake of the caller, a fabric that cannot be had a bad configuration, and a wrong
/// outcome or a cancellation a client error. The detail is the failure in words.
pub proof fn the_kind_goes_by_what_failed(error: RdmaErrorView)
    ensures
        request_error(error).kind() == ErrorKind::IoError <==> error is Fabric,
        request_error(error).kind() == ErrorKind::TypeError <==> error is Protocol,
        request_error(error).kind() == ErrorKind::UserOperationError <==> error is PayloadTooLarge,
        request_error(error).kind() == ErrorKind::InvalidClientConfig <==> (error is Configuration
            || error is LibfabricUnavailable),
        request_error(error).kind() == ErrorKind::ClientError <==> (error is ByteCountMismatch
            || error is ChecksumMismatch || error is Revoked),
        holds(request_error(error).message(), error.message()),
{
    if let RequestErrorView::Raised { kind, description, detail } = request_error(error) {
        lemma_holds(
            request_error(error).message(),
            description + " - "@ + kind_name(kind) + ": "@,
            detail,
            Seq::empty(),
        );
    }
}

/// A cancellation is a client error that ends with its reason.
pub proof fn a_cancellation_ends_with_its_reason(reason: Seq<char>)
    ensures
        cancelled_error(reason).kind() == ErrorKind::ClientError,
        cancelled_error(reason).message().skip(
            cancelled_error(reason).message().len() - reason.len(),
        ) == reason,
{
    let message = cancelled_error(reason).message();
    assert(message.skip(message.len() - reason.len()) =~= reason);
}

/// A command goes on the wire as its name and then each of its arguments, whole and in
/// order, and nothing else.
pub proof fn the_wire_carries_the_whole_command(command: RdmaCommandView)
    ensures
        on_the_wire(command).len() == command.arguments.len() + 1,
        on_the_wire(command)[0] == Some(encode_utf8(command.name)),
        forall|i: int|
            0 <= i < command.arguments.len() ==> on_the_wire(command)[i + 1] == Some(
                #[trigger] command.arguments[i],
            ),
{
}

/// What could not be read is told in the error: why a handshake reply was no list, and a
/// read or write reply as it was shown, or how many elements it had where it is an array.
pub proof fn an_unreadable_reply_is_shown(reply: ReplyView, rendering: Seq<char>, error: Seq<char>)
    ensures
        hello_of(Err(error)) is Err && holds(hello_of(Err(error))->Err_0.message(), error),
        write_ack_of(reply, rendering) is Err ==> holds(
            write_ack_of(reply, rendering)->Err_0.message(),
            rendering,
        ),
        !(reply is Nil || reply is Int || reply is Array) ==> receipt_of(reply, rendering) is Err
            && holds(receipt_of(reply, rendering)->Err_0.message(), rendering),
        reply is Array && pair(reply->Array_0) is None ==> receipt_of(reply, rendering) is Err
            && holds(
            receipt_of(reply, rendering)->Err_0.message(),
            decimal(reply->Array_0.len()),
        ),
{
    let none = Seq::<char>::empty();
    let head = "RDMA error"@ + " - "@ + kind_name(ErrorKind::TypeError) + ": "@
        + "rdma protocol error: "@;
    lemma_holds(
        unreadable("lo.hello: "@ + error).message(),
        head + "lo.hello: "@,
        error,
        none,
    );
    let start = "expected OK from lo.set, got "@;
    lemma_holds(unreadable(start + rendering).message(), head + start, rendering, none);
    let start = "unexpected reply "@;
    lemma_holds(unreadable(start + rendering).message(), head + start, rendering, none);
    if let ReplyView::Array(items) = reply {
        let start = "expected [bytes, checksum], got "@;
        let end = " elements"@;
        lemma_holds(
            unreadable(start + decimal(items.len()) + end).message(),
            head + start,
            decimal(items.len()),
            end,
        );
    }
}

/// A handshake that was parsed, or the error, is seen as it is.
pub proof fn a_handshake_is_seen_as_it_is(handshake: Result<Handshake, RequestError>)
    ensures
        match handshake {
            Ok(parsed) => {
                &&& handshake_outcome(handshake) is Ok
                &&& handshake_outcome(handshake)->Ok_0.len() == parsed.peers@.len()
                &&& forall|i: int|
                    0 <= i < parsed.peers@.len() ==> #[trigger] handshake_outcome(
                        handshake,
                    )->Ok_0[i] == parsed.peers@[i]@
            },
            Err(error) => handshake_outcome(handshake) is Err && handshake_outcome(
                handshake,
            )->Err_0 == error@,
        },
{
}

/// A read reply whose number is out of range fails as any failure of a transfer does, for
/// what is wrong with the number.
pub proof fn a_bad_number_fails_the_read(bytes: i64, checksum: i64, rendering: Seq<char>)
    ensures
        accepted(bytes, None) matches Err(error) ==> receipt_of(ReplyView::Int(bytes), rendering)
            == Err::<Option<ReadReceipt>, RequestErrorView>(request_error(error)),
        accepted(bytes, Some(checksum)) matches Err(error) ==> forall|items: Seq<ReplyItem>|
            pair(items) == Some((bytes, checksum)) ==> #[trigger] receipt_of(
                ReplyView::Array(items),
                rendering,
            ) == Err::<Option<ReadReceipt>, RequestErrorView>(request_error(error)),
{
}

/// Whatever reply could not be read, the failure is a type error.
pub proof fn an_unreadable_reply_is_a_type_error(
    strings: Result<Seq<Seq<char>>, Seq<char>>,
    reply: ReplyView,
    rendering: Seq<char>,
)
    ensures
        hello_of(strings) is Err ==> hello_of(strings)->Err_0.kind() == ErrorKind::TypeError,
        write_ack_of(reply, rendering) is Err ==> write_ack_of(reply, rendering)->Err_0.kind()
            == ErrorKind::TypeError,
        receipt_of(reply, rendering) is Err ==> receipt_of(reply, rendering)->Err_0.kind()
            == ErrorKind::TypeError,
{
}

} // verus!
