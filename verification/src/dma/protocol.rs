//! The `DMA.*` commands as the `redis` crate sends them, and its replies read back.

use vstd::prelude::*;
use vstd::string::StringExecFns;
#[allow(unused_imports)]
use vstd::utf8::encode_utf8;

use crate::dma::advertisement::{Advertisement, AdvertisementError};
use crate::dma::command;
use crate::dma::command::{
    DmaCommand, DmaGetOptions, DmaSetOptions, TransferReceipt, TransferReply,
};
#[allow(unused_imports)]
use crate::dma::command::{
    bare_command, get_layout, receipt_carries, set_layout, DmaCommandView,
};
use crate::dma::error::DmaError;
#[allow(unused_imports)]
use crate::dma::error::{outcome, DmaErrorView};
use crate::hex;
#[allow(unused_imports)]
use crate::hex::{all_hex, decoded, hex_bytes, hex_lists_round_trip, hex_text};
use crate::resp::{
    build_command, pair_of, read_reply, read_strings, render_reply, ErrorKind, Reply,
    RequestError,
};
#[allow(unused_imports)]
use crate::resp::{
    byte_strings, command_arguments, pair, reply_content, reply_items, reply_rendering,
    reply_shape, reply_strings, strings_view, wire_arguments, ReplyView, RequestErrorView, ShapeView,
};
use crate::text::push_decimal;
#[allow(unused_imports)]
use crate::text::{decimal, holds, lemma_holds};

verus! {

/// What a command puts on the wire: its name, then its arguments.
pub open spec fn on_the_wire(command: DmaCommandView) -> Seq<Option<Seq<u8>>> {
    wire_arguments(command.name, command.arguments)
}

/// Build a command of the `redis` crate from a [`DmaCommand`].
pub fn redis_command(command: &DmaCommand) -> (built: redis::Cmd)
    ensures
        command_arguments(built) == on_the_wire(command@),
        command_arguments(built).len() == command@.arguments.len() + 1,
        command_arguments(built)[0] == Some(encode_utf8(command@.name)),
        forall|i: int|
            0 <= i < command@.arguments.len() ==> command_arguments(built)[i + 1] == Some(
                #[trigger] command@.arguments[i],
            ),
{
    build_command(command.name(), command.arguments())
}

/// `DMA.HELLO`
pub fn hello_command() -> (command: redis::Cmd)
    ensures
        command_arguments(command) == on_the_wire(bare_command("DMA.HELLO"@)),
{
    redis_command(&command::hello())
}

/// `DMA.INFO` - dump diagnostics about the module's environment.
pub fn info_command() -> (command: redis::Cmd)
    ensures
        command_arguments(command) == on_the_wire(bare_command("DMA.INFO"@)),
{
    redis_command(&command::info())
}

/// `DMA.SET <address> <rkey> <remote-address> <length> <key> [<crc>]`
pub fn set_command(
    advertisement: &Advertisement,
    key: &[u8],
    length: usize,
    options: &DmaSetOptions,
) -> (command: redis::Cmd)
    ensures
        command_arguments(command) == on_the_wire(
            set_layout(advertisement@, key@, length as nat, options.spec_checksum()),
        ),
{
    redis_command(&command::set(advertisement, key, length, options))
}

/// `DMA.GET <address> <rkey> <remote-address> <capacity> <key> [<crc-flag>]`
pub fn get_command(
    advertisement: &Advertisement,
    key: &[u8],
    capacity: usize,
    options: &DmaGetOptions,
) -> (command: redis::Cmd)
    ensures
        command_arguments(command) == on_the_wire(
            get_layout(advertisement@, key@, capacity as nat, options.wants_checksum()),
        ),
{
    redis_command(&command::get(advertisement, key, capacity, options))
}

/// What a transfer reply amounts to: nil for a missing key, a byte count, or a
/// `[bytes, checksum]` pair. Anything else is a protocol error, which shows the reply
/// as `rendering` has it.
pub open spec fn receipt_of(
    reply: ReplyView,
    rendering: Seq<char>,
) -> Result<Option<TransferReceipt>, DmaErrorView> {
    match reply {
        ReplyView::Nil => TransferReply::Missing.accepted(),
        ReplyView::Int(bytes) => TransferReply::Bytes(bytes).accepted(),
        ReplyView::Array(items) => match pair(items) {
            Some((bytes, checksum)) => TransferReply::BytesAndChecksum {
                bytes,
                checksum,
            }.accepted(),
            None => Err(
                DmaErrorView::Protocol(
                    "expected [bytes, checksum], got "@ + decimal(items.len()) + " elements"@,
                ),
            ),
        },
        _ => Err(DmaErrorView::Protocol("unexpected reply "@ + rendering)),
    }
}

/// Parse a transfer reply: nil for a missing key, a byte count, or a
/// `[bytes, checksum]` pair.
pub fn parse_receipt(reply: redis::Value) -> (receipt: Result<Option<TransferReceipt>, DmaError>)
    ensures
        outcome(receipt) == receipt_of(reply_content(reply), reply_rendering(reply)),
{
    let rendering = render_reply(&reply);
    receipt_from(read_reply(&reply), rendering)
}

/// Read a transfer reply that a client has destructured; `rendering` is how a protocol
/// error shows it.
pub fn receipt_from(reply: Reply, rendering: String) -> (receipt: Result<
    Option<TransferReceipt>,
    DmaError,
>)
    ensures
        outcome(receipt) == receipt_of(reply@, rendering@),
{
    match reply {
        Reply::Nil => TransferReply::Missing.receipt(),
        Reply::Int(bytes) => TransferReply::Bytes(bytes).receipt(),
        Reply::Array(items) => {
            if let Some((bytes, checksum)) = pair_of(&items) {
                return TransferReply::BytesAndChecksum { bytes, checksum }.receipt();
            }
            let mut text = "expected [bytes, checksum], got ".to_string();
            push_decimal(&mut text, items.len() as u64);
            text.append(" elements");
            Err(DmaError::Protocol(text))
        },
        _ => {
            let mut text = "unexpected reply ".to_string();
            text.append(rendering.as_str());
            Err(DmaError::Protocol(text))
        },
    }
}

/// What a `DMA.HELLO` reply says once it is a list of strings, or the text of why it
/// is none: at least one fabric address, each in hexadecimal.
pub open spec fn hello_of(strings: Result<Seq<Seq<char>>, Seq<char>>) -> Result<
    Seq<Seq<u8>>,
    DmaErrorView,
> {
    match strings {
        Err(error) => Err(DmaErrorView::Protocol("dma.hello: "@ + error)),
        Ok(encoded) => if encoded.len() == 0 {
            Err(DmaErrorView::Protocol("dma.hello returned no addresses"@))
        } else if all_hex(encoded) {
            Ok(decoded(encoded))
        } else {
            Err(DmaErrorView::Protocol(AdvertisementError::Hex.text()))
        },
    }
}

/// What parsing addresses came to, in mathematical form.
pub open spec fn addresses_outcome(addresses: Result<Vec<Vec<u8>>, DmaError>) -> Result<
    Seq<Seq<u8>>,
    DmaErrorView,
> {
    match addresses {
        Ok(addresses) => Ok(byte_strings(addresses@)),
        Err(error) => Err(error@),
    }
}

/// Parse `DMA.HELLO` into every fabric address the server may initiate from.
pub fn parse_hello(reply: redis::Value) -> (addresses: Result<Vec<Vec<u8>>, DmaError>)
    ensures
        addresses_outcome(addresses) == hello_of(reply_strings(reply)),
{
    match read_strings(&reply) {
        Ok(encoded) => hello_from(Ok(encoded)),
        Err(error) => hello_from(Err(RequestError::Reported(error).message())),
    }
}

/// Read a `DMA.HELLO` reply that a client has destructured into strings, or the text
/// of why it could not.
pub fn hello_from(strings: Result<Vec<String>, String>) -> (addresses: Result<
    Vec<Vec<u8>>,
    DmaError,
>)
    ensures
        addresses_outcome(addresses) == hello_of(strings_view(strings)),
{
    let encoded = match strings {
        Ok(encoded) => encoded,
        Err(error) => {
            let mut text = "dma.hello: ".to_string();
            text.append(error.as_str());
            return Err(DmaError::Protocol(text));
        },
    };
    if encoded.len() == 0 {
        return Err(DmaError::Protocol("dma.hello returned no addresses".to_string()));
    }
    match hex::decode_all(&encoded) {
        Some(addresses) => Ok(addresses),
        None => Err(DmaError::from(AdvertisementError::Hex)),
    }
}

/// A node's addresses, sent in hexadecimal, are learned as they are and in order.
pub proof fn hello_reads_back(addresses: Seq<Seq<u8>>)
    requires
        addresses.len() > 0,
    ensures
        hello_of(Ok(addresses.map_values(|address: Seq<u8>| hex_text(address)))) == Ok::<
            Seq<Seq<u8>>,
            DmaErrorView,
        >(addresses),
{
    hex_lists_round_trip(addresses);
}

/// The kind of request error a DMA failure is.
pub open spec fn error_kind(error: DmaErrorView) -> ErrorKind {
    match error {
        DmaErrorView::Protocol(_) => ErrorKind::ProtocolDesync,
        DmaErrorView::ByteCountMismatch { .. } => ErrorKind::ClientError,
        DmaErrorView::ChecksumMismatch { .. } => ErrorKind::ClientError,
        DmaErrorView::PayloadTooLarge { .. } => ErrorKind::UserOperationError,
        DmaErrorView::Fabric { .. } => ErrorKind::IoError,
        DmaErrorView::Configuration(_) => ErrorKind::InvalidClientConfig,
    }
}

impl vstd::std_specs::convert::FromSpecImpl<DmaError> for RequestError {
    open spec fn obeys_from_spec() -> bool {
        false
    }

    open spec fn from_spec(error: DmaError) -> RequestError {
        arbitrary()
    }
}

/// Turn a DMA failure into the error type the rest of the client carries.
impl From<DmaError> for RequestError {
    fn from(error: DmaError) -> (raised: Self)
        ensures
            raised@ == (RequestErrorView::Raised {
                kind: error_kind(error@),
                description: "DMA error"@,
                detail: error@.message(),
            }),
    {
        let kind = match &error {
            DmaError::Protocol(_) => ErrorKind::ProtocolDesync,
            DmaError::ByteCountMismatch { .. } | DmaError::ChecksumMismatch { .. } =>
                ErrorKind::ClientError,
            DmaError::PayloadTooLarge { .. } => ErrorKind::UserOperationError,
            DmaError::Fabric { .. } => ErrorKind::IoError,
            DmaError::Configuration(_) => ErrorKind::InvalidClientConfig,
        };
        RequestError::Raised { kind, description: "DMA error", detail: error.message() }
    }
}

/// A transfer reply is read by its shape: nil is a missing key, an integer is a byte
/// count, an array of two integers is a byte count and a checksum, whose numbers the
/// receipt carries as they are, and nothing else is a receipt.
pub proof fn a_reply_is_read_by_its_shape(value: redis::Value, rendering: Seq<char>)
    ensures
        ({
            let receipt = receipt_of(reply_content(value), rendering);
            let items = reply_items(value);
            match reply_shape(value) {
                ShapeView::Nil => receipt is Ok && receipt->Ok_0 is None,
                ShapeView::Int(bytes) => receipt_carries(receipt, bytes as int, None),
                ShapeView::Array => if items.len() == 2 {
                    match (reply_shape(items[0]), reply_shape(items[1])) {
                        (ShapeView::Int(bytes), ShapeView::Int(checksum)) => receipt_carries(
                            receipt,
                            bytes as int,
                            Some(checksum as int),
                        ),
                        _ => receipt is Err,
                    }
                } else {
                    receipt is Err
                },
                _ => receipt is Err,
            }
        }),
{
}

/// A reply that could not be read is a protocol error. It shows the reply, or how many
/// elements it had where it is an array.
pub proof fn an_unreadable_reply_is_shown(reply: ReplyView, rendering: Seq<char>)
    requires
        !(reply is Nil),
        !(reply is Int),
        reply is Array ==> pair(reply->Array_0) is None,
    ensures
        receipt_of(reply, rendering) is Err,
        receipt_of(reply, rendering)->Err_0 matches DmaErrorView::Protocol(reason) && if reply is Array {
            holds(reason, decimal(reply->Array_0.len()))
        } else {
            holds(reason, rendering)
        },
{
    if let DmaErrorView::Protocol(reason) = receipt_of(reply, rendering)->Err_0 {
        match reply {
            ReplyView::Array(items) => {
                lemma_holds(
                    reason,
                    "expected [bytes, checksum], got "@,
                    decimal(items.len()),
                    " elements"@,
                );
            },
            _ => {
                lemma_holds(reason, "unexpected reply "@, rendering, Seq::empty());
            },
        }
    }
}

/// A handshake reply gives every address it lists, in order, and at least one: a reply
/// that lists none, or one that is not hexadecimal, is refused.
pub proof fn hello_gives_every_address(encoded: Seq<Seq<char>>, at: int)
    requires
        0 <= at < encoded.len(),
    ensures
        match hello_of(Ok(encoded)) {
            Ok(addresses) => addresses.len() == encoded.len() && hex_bytes(
                encode_utf8(encoded[at]),
            ) == Some(addresses[at]),
            Err(_) => exists|i: int|
                0 <= i < encoded.len() && hex_bytes(#[trigger] encode_utf8(encoded[i])) is None,
        },
        hello_of(Ok(Seq::empty())) is Err,
        forall|error: Seq<char>| (#[trigger] hello_of(Err(error))) is Err,
{
}

/// The kind of a failed request goes by what failed, not by its details, and a failure
/// of the fabric, a bad configuration, a bad reply, a wrong outcome and a value that
/// does not fit are of different kinds.
pub proof fn the_kind_goes_by_what_failed(left: DmaErrorView, right: DmaErrorView)
    ensures
        left is Protocol && right is Protocol ==> error_kind(left) == error_kind(right),
        left is Fabric && right is Fabric ==> error_kind(left) == error_kind(right),
        left is Configuration && right is Configuration ==> error_kind(left) == error_kind(right),
        left is PayloadTooLarge && right is PayloadTooLarge ==> error_kind(left) == error_kind(
            right,
        ),
        (left is ByteCountMismatch || left is ChecksumMismatch) && (right is ByteCountMismatch
            || right is ChecksumMismatch) ==> error_kind(left) == error_kind(right),
        left is Fabric <==> error_kind(left) == ErrorKind::IoError,
        left is Protocol <==> error_kind(left) == ErrorKind::ProtocolDesync,
        left is PayloadTooLarge <==> error_kind(left) == ErrorKind::UserOperationError,
        left is Configuration <==> error_kind(left) == ErrorKind::InvalidClientConfig,
{
}

/// A command goes on the wire as its name and then each of its arguments, whole and in
/// order, and nothing else.
pub proof fn the_wire_carries_the_whole_command(command: DmaCommandView)
    ensures
        on_the_wire(command).len() == command.arguments.len() + 1,
        on_the_wire(command)[0] == Some(encode_utf8(command.name)),
        forall|i: int|
            0 <= i < command.arguments.len() ==> on_the_wire(command)[i + 1] == Some(
                #[trigger] command.arguments[i],
            ),
{
}

/// Why a handshake reply was no list is told in the error.
pub proof fn a_reply_that_is_no_list_says_why(error: Seq<char>)
    ensures
        hello_of(Err(error)) matches Err(DmaErrorView::Protocol(reason)) && holds(reason, error),
{
    lemma_holds("dma.hello: "@ + error, "dma.hello: "@, error, Seq::empty());
}

/// Addresses that were parsed, or the error, are seen as they are.
pub proof fn addresses_are_seen_as_they_are(addresses: Result<Vec<Vec<u8>>, DmaError>)
    ensures
        match addresses {
            Ok(parsed) => {
                &&& addresses_outcome(addresses) is Ok
                &&& addresses_outcome(addresses)->Ok_0.len() == parsed@.len()
                &&& forall|i: int|
                    0 <= i < parsed@.len() ==> #[trigger] addresses_outcome(addresses)->Ok_0[i]
                        == parsed@[i]@
            },
            Err(error) => addresses_outcome(addresses) is Err && addresses_outcome(addresses)->Err_0
                == error@,
        },
{
}

} // verus!
