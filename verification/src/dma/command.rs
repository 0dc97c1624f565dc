//! The `DMA.*` command vocabulary, independent of any RESP client.

use vstd::prelude::*;
use vstd::string::StrSliceExecFns;
#[allow(unused_imports)]
use vstd::utf8::encode_utf8;

use crate::dma::advertisement::Advertisement;
#[allow(unused_imports)]
use crate::dma::advertisement::{advertisement_reads_back, AdvertisementView};
use crate::dma::error::DmaError;
#[allow(unused_imports)]
use crate::dma::error::{outcome, DmaErrorView};
#[allow(unused_imports)]
use crate::hex::{hex_bytes, hex_text};
#[allow(unused_imports)]
use crate::resp::byte_strings;
use crate::text::{decimal_string, push_signed};
#[allow(unused_imports)]
use crate::text::{
    decimal, decimal_round_trips, holds, lemma_holds, parsed_u64, signed_decimal,
};

verus! {

/// Description of a transfer's result.
#[derive(Debug, Clone, Copy, PartialEq, Eq, Structural)]
pub struct TransferReceipt {
    /// Byte length transferred.
    pub bytes_written: usize,
    /// CRC-32c, when requested.
    pub checksum: Option<u32>,
}

/// A transfer reply, once a client has destructured its own RESP value type.
///
/// The destructuring differs per client - each RESP library has its own value enum -
/// but the range checks do not, so they live here rather than once per client.
#[derive(Debug, Clone, Copy, PartialEq, Eq, Structural)]
pub enum TransferReply {
    /// Nil: the key was absent, and no transfer took place.
    Missing,
    /// A bare byte count.
    Bytes(i64),
    /// A `[bytes, checksum]` pair.
    BytesAndChecksum {
        /// Byte length transferred.
        bytes: i64,
        /// CRC-32c the server computed over those bytes.
        checksum: i64,
    },
}

/// A complaint about a number in a reply.
pub open spec fn out_of_range(complaint: Seq<char>, number: i64) -> DmaErrorView {
    DmaErrorView::Protocol(complaint + signed_decimal(number as int))
}

/// Whether a receipt carries these very numbers, or is none where they do not fit: a
/// byte count is a `usize` and a checksum a `u32`.
pub open spec fn receipt_carries<E>(
    receipt: Result<Option<TransferReceipt>, E>,
    bytes: int,
    checksum: Option<int>,
) -> bool {
    match receipt {
        Ok(Some(receipt)) => {
            &&& receipt.bytes_written as int == bytes
            &&& match (receipt.checksum, checksum) {
                (Some(carried), Some(checksum)) => carried as int == checksum,
                (None, None) => true,
                _ => false,
            }
        },
        Ok(None) => false,
        Err(_) => {
            ||| bytes < 0
            ||| bytes > usize::MAX
            ||| checksum is Some && (checksum->0 < 0 || checksum->0 > u32::MAX)
        },
    }
}

impl TransferReply {
    /// The receipt a reply amounts to. A checksum must be a `u32` and a byte count a
    /// `usize`, and the checksum is looked at first.
    pub open spec fn accepted(self) -> Result<Option<TransferReceipt>, DmaErrorView> {
        match self {
            TransferReply::Missing => Ok(None),
            TransferReply::Bytes(bytes) => if 0 <= bytes <= usize::MAX {
                Ok(Some(TransferReceipt { bytes_written: bytes as usize, checksum: None }))
            } else {
                Err(out_of_range("negative byte count "@, bytes))
            },
            TransferReply::BytesAndChecksum { bytes, checksum } => if !(0 <= checksum <= u32::MAX) {
                Err(out_of_range("checksum out of range "@, checksum))
            } else if 0 <= bytes <= usize::MAX {
                Ok(
                    Some(
                        TransferReceipt {
                            bytes_written: bytes as usize,
                            checksum: Some(checksum as u32),
                        },
                    ),
                )
            } else {
                Err(out_of_range("negative byte count "@, bytes))
            },
        }
    }

    /// Range-check the reply into a receipt. `None` for a missing key.
    pub fn receipt(self) -> (receipt: Result<Option<TransferReceipt>, DmaError>)
        ensures
            outcome(receipt) == self.accepted(),
            match self {
                TransferReply::Missing => receipt is Ok && receipt->Ok_0 is None,
                TransferReply::Bytes(bytes) => receipt_carries(receipt, bytes as int, None),
                TransferReply::BytesAndChecksum { bytes, checksum } => receipt_carries(
                    receipt,
                    bytes as int,
                    Some(checksum as int),
                ),
            },
    {
        let (bytes, checksum): (i64, Option<u32>) = match self {
            TransferReply::Missing => {
                return Ok(None);
            },
            TransferReply::Bytes(bytes) => (bytes, None),
            TransferReply::BytesAndChecksum { bytes, checksum } => {
                if checksum < 0 || checksum > u32::MAX as i64 {
                    return Err(complain("checksum out of range ", checksum));
                }
                (bytes, Some(checksum as u32))
            },
        };
        if bytes < 0 || bytes as u64 > usize::MAX as u64 {
            return Err(complain("negative byte count ", bytes));
        }
        Ok(Some(TransferReceipt { bytes_written: bytes as usize, checksum }))
    }
}

fn complain(complaint: &str, number: i64) -> (error: DmaError)
    ensures
        error@ == out_of_range(complaint@, number),
{
    let mut text = complaint.to_string();
    push_signed(&mut text, number);
    DmaError::Protocol(text)
}

/// Options for `DMA.SET`.
#[derive(Debug, Clone, Copy)]
pub struct DmaSetOptions {
    checksum: Option<u32>,
}

impl DmaSetOptions {
    /// The checksum to send, if any.
    pub closed spec fn spec_checksum(self) -> Option<u32> {
        self.checksum
    }

    /// Send `checksum` for the server to verify against the bytes it reads. A
    /// mismatch aborts the set.
    pub fn with_checksum(self, checksum: u32) -> (options: Self)
        ensures
            options.spec_checksum() == Some(checksum),
    {
        DmaSetOptions { checksum: Some(checksum) }
    }
}

impl Default for DmaSetOptions {
    fn default() -> (options: Self)
        ensures
            options.spec_checksum() is None,
    {
        DmaSetOptions { checksum: None }
    }
}

/// Options for `DMA.GET`.
#[derive(Debug, Clone, Copy)]
pub struct DmaGetOptions {
    checksum: bool,
}

impl DmaGetOptions {
    /// Whether a checksum is asked for.
    pub closed spec fn wants_checksum(self) -> bool {
        self.checksum
    }

    /// Ask the server to return a CRC-32c of the value.
    pub fn with_checksum(self) -> (options: Self)
        ensures
            options.wants_checksum(),
    {
        DmaGetOptions { checksum: true }
    }

    /// Whether a checksum was asked for.
    pub fn checksum_requested(&self) -> (requested: bool)
        ensures
            requested == self.wants_checksum(),
    {
        self.checksum
    }
}

impl Default for DmaGetOptions {
    fn default() -> (options: Self)
        ensures
            !options.wants_checksum(),
    {
        DmaGetOptions { checksum: false }
    }
}

/// A `DMA.*` command: its name, and its arguments in wire order.
#[derive(Debug, Clone, PartialEq, Eq)]
pub struct DmaCommand {
    name: &'static str,
    arguments: Vec<Vec<u8>>,
}

/// The mathematical form of a [`DmaCommand`].
pub struct DmaCommandView {
    pub name: Seq<char>,
    pub arguments: Seq<Seq<u8>>,
}

impl View for DmaCommand {
    type V = DmaCommandView;

    closed spec fn view(&self) -> DmaCommandView {
        DmaCommandView { name: self.name@, arguments: byte_strings(self.arguments@) }
    }
}

impl DmaCommand {
    /// The command name, as sent.
    pub fn name(&self) -> (name: &'static str)
        ensures
            name@ == self@.name,
    {
        self.name
    }

    /// The arguments, in the order they go on the wire.
    pub fn arguments(&self) -> (arguments: &[Vec<u8>])
        ensures
            byte_strings(arguments@) == self@.arguments,
    {
        self.arguments.as_slice()
    }
}

/// A command that is its name and nothing else.
pub open spec fn bare_command(name: Seq<char>) -> DmaCommandView {
    DmaCommandView { name, arguments: Seq::empty() }
}

/// The argument an integer becomes: decimal ASCII.
pub open spec fn number_argument(value: nat) -> Seq<u8> {
    encode_utf8(decimal(value))
}

/// What every transfer command carries:
/// `<address> <rkey> <remote-address> <length> <key>`.
pub open spec fn transfer_arguments(
    advertisement: AdvertisementView,
    key: Seq<u8>,
    length: nat,
) -> Seq<Seq<u8>> {
    seq![
        encode_utf8(advertisement.args()[0]),
        encode_utf8(advertisement.args()[1]),
        encode_utf8(advertisement.args()[2]),
        number_argument(length),
        key,
    ]
}

/// `DMA.SET`: a transfer, and last the checksum if there is one to verify.
pub open spec fn set_layout(
    advertisement: AdvertisementView,
    key: Seq<u8>,
    length: nat,
    checksum: Option<u32>,
) -> DmaCommandView {
    let arguments = transfer_arguments(advertisement, key, length);
    DmaCommandView {
        name: "DMA.SET"@,
        arguments: match checksum {
            Some(checksum) => arguments.push(number_argument(checksum as nat)),
            None => arguments,
        },
    }
}

/// `DMA.GET`: a transfer, and last a flag if a checksum is wanted.
pub open spec fn get_layout(
    advertisement: AdvertisementView,
    key: Seq<u8>,
    capacity: nat,
    checksum: bool,
) -> DmaCommandView {
    let arguments = transfer_arguments(advertisement, key, capacity);
    DmaCommandView {
        name: "DMA.GET"@,
        arguments: if checksum {
            arguments.push(number_argument(0))
        } else {
            arguments
        },
    }
}

/// `DMA.HELLO`
pub fn hello() -> (command: DmaCommand)
    ensures
        command@ == bare_command("DMA.HELLO"@),
{
    bare("DMA.HELLO")
}

/// `DMA.INFO` - dump diagnostics about the module's environment.
pub fn info() -> (command: DmaCommand)
    ensures
        command@ == bare_command("DMA.INFO"@),
{
    bare("DMA.INFO")
}

fn bare(name: &'static str) -> (command: DmaCommand)
    ensures
        command@ == bare_command(name@),
{
    let arguments: Vec<Vec<u8>> = Vec::new();
    assert(byte_strings(arguments@) =~= Seq::empty());
    DmaCommand { name, arguments }
}

/// `DMA.SET <address> <rkey> <remote-address> <length> <key> [<crc>]`
pub fn set(
    advertisement: &Advertisement,
    key: &[u8],
    length: usize,
    options: &DmaSetOptions,
) -> (command: DmaCommand)
    ensures
        command@ == set_layout(advertisement@, key@, length as nat, options.spec_checksum()),
{
    let mut command = transfer("DMA.SET", advertisement, key, length);
    if let Some(checksum) = options.checksum {
        let ghost before = command.arguments@;
        command.arguments.push(number(checksum as u64));
        assert(byte_strings(command.arguments@) =~= byte_strings(before).push(
            number_argument(checksum as nat),
        ));
    }
    command
}

/// `DMA.GET <address> <rkey> <remote-address> <capacity> <key> [<crc-flag>]`
pub fn get(
    advertisement: &Advertisement,
    key: &[u8],
    capacity: usize,
    options: &DmaGetOptions,
) -> (command: DmaCommand)
    ensures
        command@ == get_layout(advertisement@, key@, capacity as nat, options.wants_checksum()),
{
    let mut command = transfer("DMA.GET", advertisement, key, capacity);
    if options.checksum {
        // The flag's presence is what asks for a checksum; the value is unread.
        let ghost before = command.arguments@;
        command.arguments.push(number(0));
        assert(byte_strings(command.arguments@) =~= byte_strings(before).push(number_argument(0)));
    }
    command
}

fn transfer(
    name: &'static str,
    advertisement: &Advertisement,
    key: &[u8],
    length: usize,
) -> (command: DmaCommand)
    ensures
        command@ == (DmaCommandView {
            name: name@,
            arguments: transfer_arguments(advertisement@, key@, length as nat),
        }),
{
    let args = advertisement.to_args();
    assert(args@[0]@ == advertisement@.args()[0]);
    assert(args@[1]@ == advertisement@.args()[1]);
    assert(args@[2]@ == advertisement@.args()[2]);
    let mut arguments: Vec<Vec<u8>> = Vec::new();
    arguments.push(args[0].as_str().as_bytes_vec());
    arguments.push(args[1].as_str().as_bytes_vec());
    arguments.push(args[2].as_str().as_bytes_vec());
    arguments.push(number(length as u64));
    arguments.push(vstd::slice::slice_to_vec(key));
    assert(byte_strings(arguments@) =~= transfer_arguments(advertisement@, key@, length as nat));
    DmaCommand { name, arguments }
}

/// Decimal ASCII, matching how a RESP client renders an integer argument.
fn number(value: u64) -> (argument: Vec<u8>)
    ensures
        argument@ == number_argument(value as nat),
{
    decimal_string(value).as_str().as_bytes_vec()
}

/// What a transfer command says is what the client meant: the server reads back the
/// advertised region, the length and the key, and the key byte for byte. Asking for a
/// checksum, or sending one, changes none of that.
pub proof fn transfer_reads_back(
    advertisement: AdvertisementView,
    key: Seq<u8>,
    length: usize,
    checksum: Option<u32>,
    wanted: bool,
)
    ensures
        ({
            let set = set_layout(advertisement, key, length as nat, checksum).arguments;
            let get = get_layout(advertisement, key, length as nat, wanted).arguments;
            &&& set.take(5) == get.take(5)
            &&& hex_bytes(set[0]) == Some(advertisement.address)
            &&& parsed_u64(set[1]) == Some(advertisement.remote_key)
            &&& parsed_u64(set[2]) == Some(advertisement.remote_address)
            &&& parsed_u64(set[3]) == Some(length as u64)
            &&& set[4] == key
            &&& match checksum {
                Some(checksum) => set.len() == 6 && parsed_u64(set[5]) == Some(checksum as u64),
                None => set.len() == 5,
            }
            &&& get.len() == if wanted {
                6int
            } else {
                5
            }
            &&& wanted ==> parsed_u64(get[5]) == Some(0u64)
        }),
{
    advertisement_reads_back(advertisement);
    decimal_round_trips(length as u64);
    let set = set_layout(advertisement, key, length as nat, checksum).arguments;
    let get = get_layout(advertisement, key, length as nat, wanted).arguments;
    assert(set.take(5) =~= get.take(5));
    decimal_round_trips(0);
    if let Some(checksum) = checksum {
        decimal_round_trips(checksum as u64);
    }
}

/// A reply of a byte count and a checksum.
pub open spec fn with_checksum(bytes: i64, checksum: i64) -> TransferReply {
    TransferReply::BytesAndChecksum { bytes, checksum }
}

/// A receipt carries the numbers of the reply as they are: every byte count that a
/// `usize` holds, and every checksum that a `u32` holds, and there is no receipt for any
/// other.
pub proof fn receipts_carry_the_numbers_of_the_reply(bytes: i64, checksum: i64)
    ensures
        TransferReply::Missing.accepted() == Ok::<Option<TransferReceipt>, DmaErrorView>(None),
        receipt_carries(TransferReply::Bytes(bytes).accepted(), bytes as int, None),
        receipt_carries(
            with_checksum(bytes, checksum).accepted(),
            bytes as int,
            Some(checksum as int),
        ),
        TransferReply::Bytes(bytes).accepted() is Ok <==> 0 <= bytes <= usize::MAX,
        with_checksum(bytes, checksum).accepted() is Ok <==> (0 <= bytes <= usize::MAX && 0
            <= checksum <= u32::MAX),
        0 <= bytes <= usize::MAX ==> TransferReply::Bytes(
            bytes,
        ).accepted()->Ok_0->0.bytes_written as int == bytes as int,
        0 <= bytes <= usize::MAX && 0 <= checksum <= u32::MAX ==> (with_checksum(
            bytes,
            checksum,
        ).accepted()->Ok_0->0.bytes_written as int == bytes as int && with_checksum(
            bytes,
            checksum,
        ).accepted()->Ok_0->0.checksum->0 as int == checksum as int),
{
}

/// Replies that differ have receipts that differ.
pub proof fn distinct_replies_have_distinct_receipts(left: TransferReply, right: TransferReply)
    requires
        left.accepted() is Ok,
        left.accepted() == right.accepted(),
    ensures
        left == right,
{
}

/// A number that is refused is shown in the error, in full.
pub proof fn a_refused_number_is_shown(bytes: i64, checksum: i64)
    ensures
        TransferReply::Bytes(bytes).accepted() is Err ==> holds(
            TransferReply::Bytes(bytes).accepted()->Err_0.message(),
            signed_decimal(bytes as int),
        ),
        with_checksum(bytes, checksum).accepted() is Err && 0 <= checksum <= u32::MAX ==> holds(
            with_checksum(bytes, checksum).accepted()->Err_0.message(),
            signed_decimal(bytes as int),
        ),
        !(0 <= checksum <= u32::MAX) ==> holds(
            with_checksum(bytes, checksum).accepted()->Err_0.message(),
            signed_decimal(checksum as int),
        ),
{
    let none = Seq::<char>::empty();
    let start = "dma protocol error: "@;
    let error = out_of_range("negative byte count "@, bytes);
    lemma_holds(
        error.message(),
        start + "negative byte count "@,
        signed_decimal(bytes as int),
        none,
    );
    let error = out_of_range("checksum out of range "@, checksum);
    lemma_holds(
        error.message(),
        start + "checksum out of range "@,
        signed_decimal(checksum as int),
        none,
    );
}

/// A transfer command is named for its direction, whatever it carries, and writes its
/// numbers in plain decimal and its address in lower-case hexadecimal.
pub proof fn a_transfer_is_written_plainly(
    advertisement: AdvertisementView,
    key: Seq<u8>,
    length: usize,
    checksum: Option<u32>,
    wanted: bool,
)
    ensures
        ({
            let set = set_layout(advertisement, key, length as nat, checksum);
            let get = get_layout(advertisement, key, length as nat, wanted);
            &&& set.name == "DMA.SET"@
            &&& get.name == "DMA.GET"@
            &&& set.arguments[0] == encode_utf8(hex_text(advertisement.address))
            &&& set.arguments[1] == encode_utf8(decimal(advertisement.remote_key as nat))
            &&& set.arguments[2] == encode_utf8(decimal(advertisement.remote_address as nat))
            &&& set.arguments[3] == encode_utf8(decimal(length as nat))
            &&& checksum matches Some(checksum) ==> set.arguments[5] == encode_utf8(
                decimal(checksum as nat),
            )
            &&& wanted ==> get.arguments[5] == encode_utf8(decimal(0))
            &&& forall|i: int|
                0 <= i < 5 ==> #[trigger] get.arguments[i] == set.arguments[i]
        }),
{
}

/// A command that is its name carries no argument.
pub proof fn a_bare_command_carries_nothing(name: Seq<char>)
    ensures
        bare_command(name).name == name,
        bare_command(name).arguments.len() == 0,
{
}

} // verus!
