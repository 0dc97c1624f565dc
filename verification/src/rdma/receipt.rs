//! What a transfer's reply says.

use vstd::prelude::*;

use crate::rdma::error::RdmaError;
#[allow(unused_imports)]
use crate::rdma::error::{outcome, RdmaErrorView};
use crate::text::push_signed;
#[allow(unused_imports)]
use crate::text::{holds, lemma_holds, signed_decimal};

verus! {

/// Description of a read's result.
#[derive(Debug, Clone, Copy, PartialEq, Eq, Structural)]
pub struct ReadReceipt {
    /// Byte length transferred.
    pub bytes_written: usize,
    /// CRC-32c, when requested.
    pub checksum: Option<u32>,
}

/// How a transfer ended.
#[derive(Debug, Clone, Copy, PartialEq, Eq, Structural)]
pub enum TransferReply {
    /// The key was absent, and no transfer took place.
    Missing,
    /// A value was read.
    Read(ReadReceipt),
    /// A value was stored.
    Stored,
}

/// A complaint about a number in a reply.
pub open spec fn out_of_range(complaint: Seq<char>, number: i64) -> RdmaErrorView {
    RdmaErrorView::Protocol(complaint + signed_decimal(number as int))
}

/// The receipt that a byte count and a checksum amount to. A checksum must be a `u32`
/// and a byte count a `usize`, and the checksum is looked at first.
pub open spec fn accepted(bytes: i64, checksum: Option<i64>) -> Result<ReadReceipt, RdmaErrorView> {
    if checksum is Some && !(0 <= checksum->0 <= u32::MAX) {
        Err(out_of_range("checksum out of range "@, checksum->0))
    } else if !(0 <= bytes <= usize::MAX) {
        Err(out_of_range("negative byte count "@, bytes))
    } else {
        Ok(
            ReadReceipt {
                bytes_written: bytes as usize,
                checksum: match checksum {
                    Some(checksum) => Some(checksum as u32),
                    None => None,
                },
            },
        )
    }
}

impl ReadReceipt {
    /// Range-check the numbers of a reply into a receipt.
    pub fn from_wire(bytes: i64, checksum: Option<i64>) -> (receipt: Result<Self, RdmaError>)
        ensures
            outcome(receipt) == accepted(bytes, checksum),
            receipt is Ok <==> (0 <= bytes <= usize::MAX && (checksum is Some ==> 0 <= checksum->0
                <= u32::MAX)),
            receipt is Ok ==> receipt->Ok_0.bytes_written as int == bytes as int,
            receipt is Ok ==> (receipt->Ok_0.checksum is Some <==> checksum is Some),
            receipt is Ok && checksum is Some ==> receipt->Ok_0.checksum->0 as int
                == checksum->0 as int,
    {
        let checksum: Option<u32> = match checksum {
            Some(checksum) => {
                if checksum < 0 || checksum > u32::MAX as i64 {
                    return Err(complain("checksum out of range ", checksum));
                }
                Some(checksum as u32)
            },
            None => None,
        };
        if bytes < 0 || bytes as u64 > usize::MAX as u64 {
            return Err(complain("negative byte count ", bytes));
        }
        Ok(ReadReceipt { bytes_written: bytes as usize, checksum })
    }
}

fn complain(complaint: &str, number: i64) -> (error: RdmaError)
    ensures
        error@ == out_of_range(complaint@, number),
{
    let mut text = complaint.to_string();
    push_signed(&mut text, number);
    RdmaError::Protocol(text)
}

/// A receipt carries the numbers of the reply as they are: every byte count that a
/// `usize` holds, and every checksum that a `u32` holds, and there is no receipt for any
/// other.
pub proof fn receipts_carry_the_numbers_of_the_reply(bytes: i64, checksum: Option<i64>)
    ensures
        accepted(bytes, checksum) is Ok <==> (0 <= bytes <= usize::MAX && (checksum is Some ==> 0
            <= checksum->0 <= u32::MAX)),
        accepted(bytes, checksum) is Ok ==> accepted(bytes, checksum)->Ok_0.bytes_written as int
            == bytes as int,
        accepted(bytes, checksum) is Ok ==> (accepted(bytes, checksum)->Ok_0.checksum is Some
            <==> checksum is Some),
        accepted(bytes, checksum) is Ok && checksum is Some ==> accepted(
            bytes,
            checksum,
        )->Ok_0.checksum->0 as int == checksum->0 as int,
{
}

/// Replies that differ have receipts that differ.
pub proof fn distinct_replies_have_distinct_receipts(
    bytes: i64,
    checksum: Option<i64>,
    other_bytes: i64,
    other_checksum: Option<i64>,
)
    requires
        accepted(bytes, checksum) is Ok,
        accepted(bytes, checksum) == accepted(other_bytes, other_checksum),
    ensures
        bytes == other_bytes,
        checksum == other_checksum,
{
}

/// A number that is refused is shown in the error, in full.
pub proof fn a_refused_number_is_shown(bytes: i64, checksum: i64)
    ensures
        accepted(bytes, None) is Err ==> holds(
            accepted(bytes, None)->Err_0.message(),
            signed_decimal(bytes as int),
        ),
        accepted(bytes, Some(checksum)) is Err && 0 <= checksum <= u32::MAX ==> holds(
            accepted(bytes, Some(checksum))->Err_0.message(),
            signed_decimal(bytes as int),
        ),
        !(0 <= checksum <= u32::MAX) ==> holds(
            accepted(bytes, Some(checksum))->Err_0.message(),
            signed_decimal(checksum as int),
        ),
        accepted(bytes, None) is Err ==> accepted(bytes, None)->Err_0 is Protocol,
        accepted(bytes, Some(checksum)) is Err ==> accepted(bytes, Some(checksum))->Err_0
            is Protocol,
{
    let start = "rdma protocol error: "@;
    lemma_holds(
        out_of_range("negative byte count "@, bytes).message(),
        start + "negative byte count "@,
        signed_decimal(bytes as int),
        Seq::empty(),
    );
    lemma_holds(
        out_of_range("checksum out of range "@, checksum).message(),
        start + "checksum out of range "@,
        signed_decimal(checksum as int),
        Seq::empty(),
    );
}

} // verus!
