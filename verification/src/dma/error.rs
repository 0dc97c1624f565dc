//! Errors from a `DMA.*` command or the fabric carrying its payload.

use vstd::prelude::*;
use vstd::string::StringExecFns;

use crate::text::{push_decimal, push_hex_word, push_signed};
#[allow(unused_imports)]
use crate::text::{decimal, hex_word, holds, lemma_holds, signed_decimal};

verus! {

/// An error from a DMA transfer.
#[derive(Debug, PartialEq, Eq)]
pub enum DmaError {
    /// The server's reply did not follow the DMA protocol.
    Protocol(String),
    /// The server reported moving a different number of bytes than the caller expected.
    ByteCountMismatch {
        /// Bytes the caller expected to move.
        expected: usize,
        /// Bytes the server reported moving.
        actual: usize,
    },
    /// A checksum did not match.
    ChecksumMismatch {
        /// The checksum computed over the bytes that were meant to move.
        expected: u32,
        /// The checksum actually observed.
        actual: u32,
    },
    /// The value does not fit in the window the caller offered.
    PayloadTooLarge {
        /// Size of the value on the server.
        value_bytes: usize,
        /// Capacity the caller advertised.
        capacity: usize,
    },
    /// A libfabric call failed.
    Fabric {
        /// The libfabric operation that failed.
        operation: &'static str,
        /// What libfabric says of the failure.
        message: String,
        /// The raw libfabric error code, where one was returned.
        errno: Option<i32>,
    },
    /// The fabric could not be configured as requested.
    Configuration(String),
}

/// The mathematical form of a [`DmaError`].
pub enum DmaErrorView {
    Protocol(Seq<char>),
    ByteCountMismatch { expected: usize, actual: usize },
    ChecksumMismatch { expected: u32, actual: u32 },
    PayloadTooLarge { value_bytes: usize, capacity: usize },
    Fabric { operation: Seq<char>, message: Seq<char>, errno: Option<i32> },
    Configuration(Seq<char>),
}

impl View for DmaError {
    type V = DmaErrorView;

    open spec fn view(&self) -> DmaErrorView {
        match *self {
            DmaError::Protocol(reason) => DmaErrorView::Protocol(reason@),
            DmaError::ByteCountMismatch { expected, actual } => DmaErrorView::ByteCountMismatch {
                expected,
                actual,
            },
            DmaError::ChecksumMismatch { expected, actual } => DmaErrorView::ChecksumMismatch {
                expected,
                actual,
            },
            DmaError::PayloadTooLarge { value_bytes, capacity } => DmaErrorView::PayloadTooLarge {
                value_bytes,
                capacity,
            },
            DmaError::Fabric { operation, message, errno } => DmaErrorView::Fabric {
                operation: operation@,
                message: message@,
                errno,
            },
            DmaError::Configuration(reason) => DmaErrorView::Configuration(reason@),
        }
    }
}

/// A result with its error in mathematical form.
pub open spec fn outcome<T>(result: Result<T, DmaError>) -> Result<T, DmaErrorView> {
    match result {
        Ok(value) => Ok(value),
        Err(error) => Err(error@),
    }
}

/// The error code at the end of a fabric failure, where there is one.
pub open spec fn errno_suffix(errno: Option<i32>) -> Seq<char> {
    match errno {
        Some(errno) => " (errno "@ + signed_decimal(errno as int) + ")"@,
        None => Seq::empty(),
    }
}

impl DmaErrorView {
    /// The error in words.
    pub open spec fn message(self) -> Seq<char> {
        match self {
            DmaErrorView::Protocol(reason) => "dma protocol error: "@ + reason,
            DmaErrorView::ByteCountMismatch { expected, actual } => "dma transferred "@ + decimal(
                actual as nat,
            ) + " bytes, expected "@ + decimal(expected as nat),
            DmaErrorView::ChecksumMismatch { expected, actual } =>
                "dma checksum mismatch: expected "@ + hex_word(expected) + ", got "@ + hex_word(
                actual,
            ),
            DmaErrorView::PayloadTooLarge { value_bytes, capacity } => "value of "@ + decimal(
                value_bytes as nat,
            ) + " bytes exceeds the "@ + decimal(capacity as nat) + " byte registered window"@,
            DmaErrorView::Fabric { operation, message, errno } => "fabric error in "@ + operation
                + ": "@ + message + errno_suffix(errno),
            DmaErrorView::Configuration(reason) => "fabric configuration error: "@ + reason,
        }
    }
}

/// Append the error code of a fabric failure, where there is one.
pub(crate) fn push_errno(text: &mut String, errno: Option<i32>)
    ensures
        final(text)@ == old(text)@ + errno_suffix(errno),
{
    if let Some(errno) = errno {
        text.append(" (errno ");
        push_signed(text, errno as i64);
        text.append(")");
    }
    assert(text@ =~= old(text)@ + errno_suffix(errno));
}

impl Clone for DmaError {
    fn clone(&self) -> (copy: Self)
        ensures
            copy@ == self@,
    {
        match self {
            DmaError::Protocol(reason) => DmaError::Protocol(reason.clone()),
            DmaError::ByteCountMismatch { expected, actual } => DmaError::ByteCountMismatch {
                expected: *expected,
                actual: *actual,
            },
            DmaError::ChecksumMismatch { expected, actual } => DmaError::ChecksumMismatch {
                expected: *expected,
                actual: *actual,
            },
            DmaError::PayloadTooLarge { value_bytes, capacity } => DmaError::PayloadTooLarge {
                value_bytes: *value_bytes,
                capacity: *capacity,
            },
            DmaError::Fabric { operation, message, errno } => DmaError::Fabric {
                operation: *operation,
                message: message.clone(),
                errno: *errno,
            },
            DmaError::Configuration(reason) => DmaError::Configuration(reason.clone()),
        }
    }
}

impl DmaError {
    /// The error in words.
    pub fn message(&self) -> (text: String)
        ensures
            text@ == self@.message(),
    {
        let mut text = String::new();
        match self {
            DmaError::Protocol(reason) => {
                text.append("dma protocol error: ");
                text.append(reason.as_str());
            },
            DmaError::ByteCountMismatch { expected, actual } => {
                text.append("dma transferred ");
                push_decimal(&mut text, *actual as u64);
                text.append(" bytes, expected ");
                push_decimal(&mut text, *expected as u64);
            },
            DmaError::ChecksumMismatch { expected, actual } => {
                text.append("dma checksum mismatch: expected ");
                push_hex_word(&mut text, *expected);
                text.append(", got ");
                push_hex_word(&mut text, *actual);
            },
            DmaError::PayloadTooLarge { value_bytes, capacity } => {
                text.append("value of ");
                push_decimal(&mut text, *value_bytes as u64);
                text.append(" bytes exceeds the ");
                push_decimal(&mut text, *capacity as u64);
                text.append(" byte registered window");
            },
            DmaError::Fabric { operation, message, errno } => {
                text.append("fabric error in ");
                text.append(operation);
                text.append(": ");
                text.append(message.as_str());
                push_errno(&mut text, *errno);
            },
            DmaError::Configuration(reason) => {
                text.append("fabric configuration error: ");
                text.append(reason.as_str());
            },
        }
        assert(text@ =~= self@.message());
        text
    }
}

/// An error in words holds whatever the error carries: its reason, its numbers in full,
/// the operation that failed and the code it failed with.
pub proof fn a_message_holds_what_the_error_carries(error: DmaErrorView)
    ensures
        match error {
            DmaErrorView::Protocol(reason) => holds(error.message(), reason),
            DmaErrorView::ByteCountMismatch { expected, actual } => {
                &&& holds(error.message(), decimal(expected as nat))
                &&& holds(error.message(), decimal(actual as nat))
            },
            DmaErrorView::ChecksumMismatch { expected, actual } => {
                &&& holds(error.message(), hex_word(expected))
                &&& holds(error.message(), hex_word(actual))
            },
            DmaErrorView::PayloadTooLarge { value_bytes, capacity } => {
                &&& holds(error.message(), decimal(value_bytes as nat))
                &&& holds(error.message(), decimal(capacity as nat))
            },
            DmaErrorView::Fabric { operation, message, errno } => {
                &&& holds(error.message(), operation)
                &&& holds(error.message(), message)
                &&& errno matches Some(errno) ==> holds(
                    error.message(),
                    signed_decimal(errno as int),
                )
            },
            DmaErrorView::Configuration(reason) => holds(error.message(), reason),
        },
{
    let message = error.message();
    let none = Seq::<char>::empty();
    match error {
        DmaErrorView::Protocol(reason) => {
            lemma_holds(message, "dma protocol error: "@, reason, none);
        },
        DmaErrorView::ByteCountMismatch { expected, actual } => {
            let first = decimal(actual as nat);
            let second = decimal(expected as nat);
            let start = "dma transferred "@;
            let between = " bytes, expected "@;
            lemma_holds(message, start, first, between + second);
            lemma_holds(message, start + first + between, second, none);
        },
        DmaErrorView::ChecksumMismatch { expected, actual } => {
            let first = hex_word(expected);
            let second = hex_word(actual);
            let start = "dma checksum mismatch: expected "@;
            let between = ", got "@;
            lemma_holds(message, start, first, between + second);
            lemma_holds(message, start + first + between, second, none);
        },
        DmaErrorView::PayloadTooLarge { value_bytes, capacity } => {
            let first = decimal(value_bytes as nat);
            let second = decimal(capacity as nat);
            let start = "value of "@;
            let between = " bytes exceeds the "@;
            let end = " byte registered window"@;
            lemma_holds(message, start, first, between + second + end);
            lemma_holds(message, start + first + between, second, end);
        },
        DmaErrorView::Fabric { operation, message: said, errno } => {
            let start = "fabric error in "@;
            let suffix = errno_suffix(errno);
            lemma_holds(message, start, operation, ": "@ + said + suffix);
            lemma_holds(message, start + operation + ": "@, said, suffix);
            if let Some(errno) = errno {
                lemma_holds(
                    message,
                    start + operation + ": "@ + said + " (errno "@,
                    signed_decimal(errno as int),
                    ")"@,
                );
            }
        },
        DmaErrorView::Configuration(reason) => {
            lemma_holds(message, "fabric configuration error: "@, reason, none);
        },
    }
}

/// A fabric failure mentions a code just when it has one: the code adds to the message,
/// and leaves the rest of it as it is.
pub proof fn an_error_code_is_mentioned_only_where_there_is_one(
    operation: Seq<char>,
    message: Seq<char>,
    errno: i32,
)
    ensures
        ({
            let with = DmaErrorView::Fabric { operation, message, errno: Some(errno) }.message();
            let without = DmaErrorView::Fabric { operation, message, errno: None }.message();
            &&& with.len() > without.len()
            &&& with.take(without.len() as int) == without
            &&& without.skip(without.len() - message.len()) == message
        }),
{
    reveal_strlit(" (errno ");
    let with = DmaErrorView::Fabric { operation, message, errno: Some(errno) }.message();
    let without = DmaErrorView::Fabric { operation, message, errno: None }.message();
    assert(with.take(without.len() as int) =~= without);
    assert(without.skip(without.len() - message.len()) =~= message);
}

/// Nothing of an error is left out of its mathematical form.
pub proof fn an_error_is_seen_whole(left: DmaError, right: DmaError)
    requires
        left@ == right@,
    ensures
        match (left, right) {
            (DmaError::Protocol(reason), DmaError::Protocol(other)) => reason@ == other@,
            (
                DmaError::ByteCountMismatch { expected, actual },
                DmaError::ByteCountMismatch { expected: other_expected, actual: other_actual },
            ) => expected == other_expected && actual == other_actual,
            (
                DmaError::ChecksumMismatch { expected, actual },
                DmaError::ChecksumMismatch { expected: other_expected, actual: other_actual },
            ) => expected == other_expected && actual == other_actual,
            (
                DmaError::PayloadTooLarge { value_bytes, capacity },
                DmaError::PayloadTooLarge { value_bytes: other_bytes, capacity: other_capacity },
            ) => value_bytes == other_bytes && capacity == other_capacity,
            (
                DmaError::Fabric { operation, message, errno },
                DmaError::Fabric {
                    operation: other_operation,
                    message: other_message,
                    errno: other_errno,
                },
            ) => operation@ == other_operation@ && message@ == other_message@ && errno
                == other_errno,
            (DmaError::Configuration(reason), DmaError::Configuration(other)) => reason@ == other@,
            _ => false,
        },
{
}

/// A result is seen as it is, with its value or its error.
pub proof fn a_result_is_seen_as_it_is<T>(result: Result<T, DmaError>)
    ensures
        match result {
            Ok(value) => outcome(result) is Ok && outcome(result)->Ok_0 == value,
            Err(error) => outcome(result) is Err && outcome(result)->Err_0 == error@,
        },
{
}

} // verus!
