//! Errors from an `LO.*` command or the fabric carrying its payload.

use vstd::prelude::*;
use vstd::string::StringExecFns;

#[allow(unused_imports)]
use crate::dma::error::errno_suffix;
use crate::dma::error::push_errno;
use crate::rdma::region_ref::RegionRefError;
use crate::text::{push_decimal, push_hex_word};
#[allow(unused_imports)]
use crate::text::{decimal, hex_word, holds, lemma_holds, signed_decimal};

verus! {

/// An error from an RDMA transfer.
#[derive(Debug, PartialEq, Eq)]
pub enum RdmaError {
    /// The server's reply did not follow the RDMA protocol.
    Protocol(String),
    /// The server reported moving a different number of bytes than the caller expected.
    ByteCountMismatch {
        /// Bytes the caller expected to move.
        expected: usize,
        /// Bytes the server reported moving.
        actual: usize,
    },
    /// A checksum did not match. On `LO.GET` the server's checksum disagreed with
    /// the bytes that landed. On `LO.SET` the server rejected the value before
    /// storing it.
    ChecksumMismatch {
        /// The checksum computed over the bytes that were meant to move.
        expected: u32,
        /// The checksum actually observed.
        actual: u32,
    },
    /// The value does not fit in the window the caller offered.
    /// Retry with a larger window, or fall back to a plain `GET`.
    PayloadTooLarge {
        /// Size of the value on the server.
        value_bytes: usize,
        /// Capacity the caller advertised.
        capacity: usize,
    },
    /// A libfabric call failed.
    Fabric {
        /// The libfabric operation that failed.
        operation: &'static str,
        /// What libfabric says of the failure.
        message: String,
        /// The raw libfabric error code, where one was returned.
        errno: Option<i32>,
    },
    /// The fabric could not be configured as requested.
    Configuration(String),
    /// libfabric could not be loaded or the copy that loaded is too old to
    /// match the headers this crate was built against.
    LibfabricUnavailable {
        /// What was tried and what went wrong, for an operator to act on.
        detail: String,
    },
    /// The region the transfer needs was revoked.
    Revoked,
}

/// The mathematical form of a [`RdmaError`].
pub enum RdmaErrorView {
    Protocol(Seq<char>),
    ByteCountMismatch { expected: usize, actual: usize },
    ChecksumMismatch { expected: u32, actual: u32 },
    PayloadTooLarge { value_bytes: usize, capacity: usize },
    Fabric { operation: Seq<char>, message: Seq<char>, errno: Option<i32> },
    Configuration(Seq<char>),
    LibfabricUnavailable { detail: Seq<char> },
    Revoked,
}

impl View for RdmaError {
    type V = RdmaErrorView;

    open spec fn view(&self) -> RdmaErrorView {
        match *self {
            RdmaError::Protocol(reason) => RdmaErrorView::Protocol(reason@),
            RdmaError::ByteCountMismatch { expected, actual } => RdmaErrorView::ByteCountMismatch {
                expected,
                actual,
            },
            RdmaError::ChecksumMismatch { expected, actual } => RdmaErrorView::ChecksumMismatch {
                expected,
                actual,
            },
            RdmaError::PayloadTooLarge { value_bytes, capacity } => RdmaErrorView::PayloadTooLarge {
                value_bytes,
                capacity,
            },
            RdmaError::Fabric { operation, message, errno } => RdmaErrorView::Fabric {
                operation: operation@,
                message: message@,
                errno,
            },
            RdmaError::Configuration(reason) => RdmaErrorView::Configuration(reason@),
            RdmaError::LibfabricUnavailable { detail } => RdmaErrorView::LibfabricUnavailable {
                detail: detail@,
            },
            RdmaError::Revoked => RdmaErrorView::Revoked,
        }
    }
}

/// A result with its error in mathematical form.
pub open spec fn outcome<T>(result: Result<T, RdmaError>) -> Result<T, RdmaErrorView> {
    match result {
        Ok(value) => Ok(value),
        Err(error) => Err(error@),
    }
}

impl RdmaErrorView {
    /// The error in words.
    pub open spec fn message(self) -> Seq<char> {
        match self {
            RdmaErrorView::Protocol(reason) => "rdma protocol error: "@ + reason,
            RdmaErrorView::ByteCountMismatch { expected, actual } => "rdma transferred "@ + decimal(
                actual as nat,
            ) + " bytes, expected "@ + decimal(expected as nat),
            RdmaErrorView::ChecksumMismatch { expected, actual } =>
                "rdma checksum mismatch: expected "@ + hex_word(expected) + ", got "@ + hex_word(
                actual,
            ),
            RdmaErrorView::PayloadTooLarge { value_bytes, capacity } => "value of "@ + decimal(
                value_bytes as nat,
            ) + " bytes exceeds the "@ + decimal(capacity as nat) + " byte registered window"@,
            RdmaErrorView::Fabric { operation, message, errno } => "fabric error in "@ + operation
                + ": "@ + message + errno_suffix(errno),
            RdmaErrorView::Configuration(reason) => "fabric configuration error: "@ + reason,
            RdmaErrorView::LibfabricUnavailable { detail } => "libfabric unavailable: "@ + detail,
            RdmaErrorView::Revoked => "the region was revoked"@,
        }
    }
}

impl Clone for RdmaError {
    fn clone(&self) -> (copy: Self)
        ensures
            copy@ == self@,
    {
        match self {
            RdmaError::Protocol(reason) => RdmaError::Protocol(reason.clone()),
            RdmaError::ByteCountMismatch { expected, actual } => RdmaError::ByteCountMismatch {
                expected: *expected,
                actual: *actual,
            },
            RdmaError::ChecksumMismatch { expected, actual } => RdmaError::ChecksumMismatch {
                expected: *expected,
                actual: *actual,
            },
            RdmaError::PayloadTooLarge { value_bytes, capacity } => RdmaError::PayloadTooLarge {
                value_bytes: *value_bytes,
                capacity: *capacity,
            },
            RdmaError::Fabric { operation, message, errno } => RdmaError::Fabric {
                operation: *operation,
                message: message.clone(),
                errno: *errno,
            },
            RdmaError::Configuration(reason) => RdmaError::Configuration(reason.clone()),
            RdmaError::LibfabricUnavailable { detail } => RdmaError::LibfabricUnavailable {
                detail: detail.clone(),
            },
            RdmaError::Revoked => RdmaError::Revoked,
        }
    }
}

impl RdmaError {
    /// The error in words.
    pub fn message(&self) -> (text: String)
        ensures
            text@ == self@.message(),
    {
        let mut text = String::new();
        match self {
            RdmaError::Protocol(reason) => {
                text.append("rdma protocol error: ");
                text.append(reason.as_str());
            },
            RdmaError::ByteCountMismatch { expected, actual } => {
                text.append("rdma transferred ");
                push_decimal(&mut text, *actual as u64);
                text.append(" bytes, expected ");
                push_decimal(&mut text, *expected as u64);
            },
            RdmaError::ChecksumMismatch { expected, actual } => {
                text.append("rdma checksum mismatch: expected ");
                push_hex_word(&mut text, *expected);
                text.append(", got ");
                push_hex_word(&mut text, *actual);
            },
            RdmaError::PayloadTooLarge { value_bytes, capacity } => {
                text.append("value of ");
                push_decimal(&mut text, *value_bytes as u64);
                text.append(" bytes exceeds the ");
                push_decimal(&mut text, *capacity as u64);
                text.append(" byte registered window");
            },
            RdmaError::Fabric { operation, message, errno } => {
                text.append("fabric error in ");
                text.append(operation);
                text.append(": ");
                text.append(message.as_str());
                push_errno(&mut text, *errno);
            },
            RdmaError::Configuration(reason) => {
                text.append("fabric configuration error: ");
                text.append(reason.as_str());
            },
            RdmaError::LibfabricUnavailable { detail } => {
                text.append("libfabric unavailable: ");
                text.append(detail.as_str());
            },
            RdmaError::Revoked => {
                text.append("the region was revoked");
            },
        }
        assert(text@ =~= self@.message());
        text
    }
}

impl vstd::std_specs::convert::FromSpecImpl<RegionRefError> for RdmaError {
    open spec fn obeys_from_spec() -> bool {
        false
    }

    open spec fn from_spec(error: RegionRefError) -> RdmaError {
        arbitrary()
    }
}

impl From<RegionRefError> for RdmaError {
    fn from(error: RegionRefError) -> (raised: Self)
        ensures
            raised@ == RdmaErrorView::Protocol(error.text()),
    {
        RdmaError::Protocol(error.message())
    }
}

/// An error in words holds whatever the error carries: its reason, its numbers in full,
/// the operation that failed and the code it failed with.
pub proof fn a_message_holds_what_the_error_carries(error: RdmaErrorView)
    ensures
        match error {
            RdmaErrorView::Protocol(reason) => holds(error.message(), reason),
            RdmaErrorView::ByteCountMismatch { expected, actual } => {
                &&& holds(error.message(), decimal(expected as nat))
                &&& holds(error.message(), decimal(actual as nat))
            },
            RdmaErrorView::ChecksumMismatch { expected, actual } => {
                &&& holds(error.message(), hex_word(expected))
                &&& holds(error.message(), hex_word(actual))
            },
            RdmaErrorView::PayloadTooLarge { value_bytes, capacity } => {
                &&& holds(error.message(), decimal(value_bytes as nat))
                &&& holds(error.message(), decimal(capacity as nat))
            },
            RdmaErrorView::Fabric { operation, message, errno } => {
                &&& holds(error.message(), operation)
                &&& holds(error.message(), message)
                &&& errno matches Some(errno) ==> holds(
                    error.message(),
                    signed_decimal(errno as int),
                )
            },
            RdmaErrorView::Configuration(reason) => holds(error.message(), reason),
            RdmaErrorView::LibfabricUnavailable { detail } => holds(error.message(), detail),
            RdmaErrorView::Revoked => error.message().len() > 0,
        },
{
    let message = error.message();
    let none = Seq::<char>::empty();
    match error {
        RdmaErrorView::Protocol(reason) => {
            lemma_holds(message, "rdma protocol error: "@, reason, none);
        },
        RdmaErrorView::ByteCountMismatch { expected, actual } => {
            let first = decimal(actual as nat);
            let second = decimal(expected as nat);
            let start = "rdma transferred "@;
            let between = " bytes, expected "@;
            lemma_holds(message, start, first, between + second);
            lemma_holds(message, start + first + between, second, none);
        },
        RdmaErrorView::ChecksumMismatch { expected, actual } => {
            let first = hex_word(expected);
            let second = hex_word(actual);
            let start = "rdma checksum mismatch: expected "@;
            let between = ", got "@;
            lemma_holds(message, start, first, between + second);
            lemma_holds(message, start + first + between, second, none);
        },
        RdmaErrorView::PayloadTooLarge { value_bytes, capacity } => {
            let first = decimal(value_bytes as nat);
            let second = decimal(capacity as nat);
            let start = "value of "@;
            let between = " bytes exceeds the "@;
            let end = " byte registered window"@;
            lemma_holds(message, start, first, between + second + end);
            lemma_holds(message, start + first + between, second, end);
        },
        RdmaErrorView::Fabric { operation, message: said, errno } => {
            let start = "fabric error in "@;
            let suffix = errno_suffix(errno);
            lemma_holds(message, start, operation, ": "@ + said + suffix);
            lemma_holds(message, start + operation + ": "@, said, suffix);
            if let Some(errno) = errno {
                lemma_holds(
                    message,
                    start + operation + ": "@ + said + " (errno "@,
                    signed_decimal(errno as int),
                    ")"@,
                );
            }
        },
        RdmaErrorView::Configuration(reason) => {
            lemma_holds(message, "fabric configuration error: "@, reason, none);
        },
        RdmaErrorView::LibfabricUnavailable { detail } => {
            lemma_holds(message, "libfabric unavailable: "@, detail, none);
        },
        RdmaErrorView::Revoked => {
            reveal_strlit("the region was revoked");
        },
    }
}

/// A fabric failure mentions a code just when it has one: the code adds to the message,
/// and leaves the rest of it as it is.
pub proof fn an_error_code_is_mentioned_only_where_there_is_one(
    operation: Seq<char>,
    message: Seq<char>,
    errno: i32,
)
    ensures
        ({
            let with = RdmaErrorView::Fabric { operation, message, errno: Some(errno) }.message();
            let without = RdmaErrorView::Fabric { operation, message, errno: None }.message();
            &&& with.len() > without.len()
            &&& with.take(without.len() as int) == without
            &&& without.skip(without.len() - message.len()) == message
        }),
{
    reveal_strlit(" (errno ");
    let with = RdmaErrorView::Fabric { operation, message, errno: Some(errno) }.message();
    let without = RdmaErrorView::Fabric { operation, message, errno: None }.message();
    assert(with.take(without.len() as int) =~= without);
    assert(without.skip(without.len() - message.len()) =~= message);
}

/// Nothing of an error is left out of its mathematical form.
pub proof fn an_error_is_seen_whole(left: RdmaError, right: RdmaError)
    requires
        left@ == right@,
    ensures
        match (left, right) {
            (RdmaError::Protocol(reason), RdmaError::Protocol(other)) => reason@ == other@,
            (
                RdmaError::ByteCountMismatch { expected, actual },
                RdmaError::ByteCountMismatch { expected: other_expected, actual: other_actual },
            ) => expected == other_expected && actual == other_actual,
            (
                RdmaError::ChecksumMismatch { expected, actual },
                RdmaError::ChecksumMismatch { expected: other_expected, actual: other_actual },
            ) => expected == other_expected && actual == other_actual,
            (
                RdmaError::PayloadTooLarge { value_bytes, capacity },
                RdmaError::PayloadTooLarge { value_bytes: other_bytes, capacity: other_capacity },
            ) => value_bytes == other_bytes && capacity == other_capacity,
            (
                RdmaError::Fabric { operation, message, errno },
                RdmaError::Fabric {
                    operation: other_operation,
                    message: other_message,
                    errno: other_errno,
                },
            ) => operation@ == other_operation@ && message@ == other_message@ && errno
                == other_errno,
            (RdmaError::Configuration(reason), RdmaError::Configuration(other)) => reason@ == other@,
            (
                RdmaError::LibfabricUnavailable { detail },
                RdmaError::LibfabricUnavailable { detail: other },
            ) => detail@ == other@,
            (RdmaError::Revoked, RdmaError::Revoked) => true,
            _ => false,
        },
{
}

/// A result is seen as it is, with its value or its error.
pub proof fn a_result_is_seen_as_it_is<T>(result: Result<T, RdmaError>)
    ensures
        match result {
            Ok(value) => outcome(result) is Ok && outcome(result)->Ok_0 == value,
            Err(error) => outcome(result) is Err && outcome(result)->Err_0 == error@,
        },
{
}

} // verus!
