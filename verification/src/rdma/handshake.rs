//! Why a handshake came to nothing.

use vstd::prelude::*;
#[allow(unused_imports)]
use vstd::utf8::encode_utf8;

use crate::rdma::error::RdmaError;
use crate::rdma::protocol::{as_redis_error, cancelled, configuration_error};
#[allow(unused_imports)]
use crate::rdma::protocol::{cancelled_error, unreadable, unusable, CANCELLED};
use crate::rdma::setting::RdmaUnavailable;
#[allow(unused_imports)]
use crate::rdma::setting::RdmaUnavailableView;
use crate::resp::{ErrorKind, RequestError};
#[allow(unused_imports)]
use crate::resp::{kind_name, RequestErrorView};
use crate::text::contains_ignoring_case;
#[allow(unused_imports)]
use crate::text::{
    a_phrase_found_is_there, a_phrase_is_found_anywhere, ascii_bytes, case_is_all_that_is_ignored, holds,
    lemma_ascii_bytes, lemma_holds, mentions, same_letter,
    spells,
};

verus! {

/// Whether the server answered at all, rather than the connection failing or the
/// server asking for time.
pub open spec fn answered(error: RequestErrorView) -> bool {
    &&& !error.dropped()
    &&& !error.timeout()
    &&& error.kind() != ErrorKind::IoError
    &&& error.kind() != ErrorKind::BusyLoadingError
    &&& error.kind() != ErrorKind::TryAgain
}

/// Whether an answer says that the server does not know the command.
pub open spec fn says_unknown(message: Seq<char>) -> bool {
    ||| mentions(encode_utf8(message), ascii_bytes("unknown command"@))
    ||| mentions(encode_utf8(message), ascii_bytes("unknown or disabled command"@))
}

/// Why a handshake that failed so was refused. What was never answered stays as it is,
/// a replica's refusal stays a read-only error, and every other answer means that the
/// configuration cannot be used with this node.
pub open spec fn refused_handshake(node: Seq<char>, error: RequestErrorView) -> RequestErrorView {
    if !answered(error) {
        error
    } else if error.kind() == ErrorKind::ReadOnly {
        RequestErrorView::Raised {
            kind: ErrorKind::ReadOnly,
            description: "An error was signalled by the server:"@,
            detail: RdmaUnavailableView::HandshakeRefused {
                node,
                reason: error.message(),
            }.message(),
        }
    } else if says_unknown(error.message()) {
        unusable(RdmaUnavailableView::ServerModuleMissing { node }.message())
    } else {
        unusable(
            RdmaUnavailableView::HandshakeRefused { node, reason: error.message() }.message(),
        )
    }
}

/// Why a `LO.HELLO` was refused by the server.
pub fn handshake_refused(node: &str, error: RequestError) -> (refused: RequestError)
    ensures
        refused@ == refused_handshake(node@, error@),
        !answered(error@) ==> refused == error,
{
    if !answered_by_server(&error) {
        return error;
    }
    let message = error.message();
    if error.kind() == ErrorKind::ReadOnly {
        let reason = RdmaUnavailable::HandshakeRefused { node: node.to_string(), reason: message };
        return RequestError::Raised {
            kind: ErrorKind::ReadOnly,
            description: "An error was signalled by the server:",
            detail: reason.message(),
        };
    }
    let unknown = {
        proof {
            reveal_strlit("unknown command");
            reveal_strlit("unknown or disabled command");
            lemma_ascii_bytes("unknown command"@);
            lemma_ascii_bytes("unknown or disabled command"@);
        }
        let bytes = message.as_str().as_bytes();
        contains_ignoring_case(bytes, "unknown command".as_bytes()) || contains_ignoring_case(
            bytes,
            "unknown or disabled command".as_bytes(),
        )
    };
    let reason = if unknown {
        RdmaUnavailable::ServerModuleMissing { node: node.to_string() }
    } else {
        RdmaUnavailable::HandshakeRefused { node: node.to_string(), reason: message }
    };
    configuration_error(reason.message())
}

/// How a handshake reply that could not be read is reported.
pub open spec fn unreadable_handshake(node: Seq<char>, reason: Seq<char>) -> RequestErrorView {
    unreadable(RdmaUnavailableView::MalformedHandshake { node, reason }.message())
}

/// Whether `malformed` reports a handshake reply that could not be read for `error`.
/// The reason it gives is the error in words, which the operating system may have
/// chosen.
pub open spec fn reports_malformed(
    node: Seq<char>,
    error: RequestErrorView,
    malformed: RequestErrorView,
) -> bool {
    exists|reason: Seq<char>|
        {
            &&& malformed == #[trigger] unreadable_handshake(node, reason)
            &&& !error.worded_elsewhere() ==> reason == error.message()
        }
}

/// A `LO.HELLO` reply this client could not read.
///
/// Different from a refusal because it indicates the node has the
/// module and answered, but the two disagree about the reply's shape.
pub fn malformed_handshake(node: &str, error: RequestError) -> (malformed: RequestError)
    ensures
        reports_malformed(node@, error@, malformed@),
{
    let message = error.message();
    let ghost reason = message@;
    let unavailable = RdmaUnavailable::MalformedHandshake {
        node: node.to_string(),
        reason: message,
    };
    let malformed = as_redis_error(RdmaError::Protocol(unavailable.message()));
    assert(malformed@ == unreadable_handshake(node@, reason));
    malformed
}

/// Whether the server answered the handshake at all.
fn answered_by_server(error: &RequestError) -> (server: bool)
    ensures
        server == answered(error@),
{
    !error.is_io_error() && !error.is_connection_dropped() && !error.is_timeout() && match error.kind() {
        ErrorKind::IoError | ErrorKind::BusyLoadingError | ErrorKind::TryAgain => false,
        _ => true,
    }
}

/// What is said of a cancelled transfer.
pub open spec fn cancellation_error(client_closed: bool) -> RequestErrorView {
    cancelled_error(
        if client_closed {
            "the client was closed"@
        } else {
            "its region was revoked"@
        },
    )
}

/// The error a cancelled transfer returns, naming what cancelled it.
pub fn cancellation(client_closed: bool) -> (raised: RequestError)
    ensures
        raised@ == cancellation_error(client_closed),
{
    cancelled(
        if client_closed {
            "the client was closed".to_string()
        } else {
            "its region was revoked".to_string()
        },
    )
}

/// Convert a failed transfer reply into a cancelled error, or report a successful
/// reply if it completed before the region was revoked or the client started closing.
pub fn cancelled_if_revoked(
    reply: Result<redis::Value, RequestError>,
    region_revoked: bool,
    client_closed: bool,
) -> (end: Result<redis::Value, RequestError>)
    ensures
        if reply is Err && (region_revoked || client_closed) {
            end is Err && end->Err_0@ == cancellation_error(client_closed)
        } else {
            end == reply
        },
{
    match reply {
        Err(error) => if region_revoked || client_closed {
            Err(cancellation(client_closed))
        } else {
            Err(error)
        },
        Ok(value) => Ok(value),
    }
}

/// Every answer to a handshake other than a success ends it for good or leaves a
/// replica read-only: the kind that comes out is the one that went in for what was
/// never answered and for a read-only replica, and otherwise says that the
/// configuration is at fault. So nothing the server answered is taken for a lost
/// connection, and nothing it never answered for a refusal.
pub proof fn refusals_keep_what_can_be_retried(node: Seq<char>, error: RequestErrorView)
    ensures
        !answered(error) ==> refused_handshake(node, error) == error,
        answered(error) && error.kind() == ErrorKind::ReadOnly ==> refused_handshake(
            node,
            error,
        ).kind() == ErrorKind::ReadOnly,
        answered(error) && error.kind() != ErrorKind::ReadOnly ==> refused_handshake(
            node,
            error,
        ).kind() == ErrorKind::InvalidClientConfig,
        answered(error) ==> answered(refused_handshake(node, error)),
{
}

/// A server has answered unless the connection failed or timed out, or the server asked
/// for time: every other error is its answer.
pub proof fn an_answer_is_any_error_of_the_server(error: RequestErrorView)
    ensures
        answered(error) <==> !error.dropped() && !error.timeout() && !(error.kind()
            == ErrorKind::IoError || error.kind() == ErrorKind::BusyLoadingError || error.kind()
            == ErrorKind::TryAgain),
{
}

/// What a node answered a handshake with is reported with the node's name, and with its
/// answer unless that was that it does not know the command: a node that does not is
/// said to have no module, and no other is.
pub proof fn a_refusal_names_the_node(node: Seq<char>, error: RequestErrorView)
    requires
        answered(error),
    ensures
        holds(refused_handshake(node, error).message(), node),
        error.kind() == ErrorKind::ReadOnly || !says_unknown(error.message()) ==> holds(
            refused_handshake(node, error).message(),
            error.message(),
        ),
        error.kind() != ErrorKind::ReadOnly && says_unknown(error.message()) ==> holds(
            refused_handshake(node, error).message(),
            "no RDMA module loaded"@,
        ),
{
    let refused = refused_handshake(node, error);
    let none = Seq::<char>::empty();
    let answer = error.message();
    let between = " refused the RDMA handshake: "@;
    let head = if error.kind() == ErrorKind::ReadOnly {
        "An error was signalled by the server:"@ + " - "@ + kind_name(ErrorKind::ReadOnly) + ": "@
    } else {
        "RDMA error"@ + " - "@ + kind_name(ErrorKind::InvalidClientConfig) + ": "@
            + "fabric configuration error: "@
    };
    if error.kind() == ErrorKind::ReadOnly || !says_unknown(answer) {
        lemma_holds(refused.message(), head + "node "@, node, between + answer);
        lemma_holds(refused.message(), head + "node "@ + node + between, answer, none);
    } else {
        let end = " has no RDMA module loaded"@;
        reveal_strlit(" has no RDMA module loaded");
        reveal_strlit("no RDMA module loaded");
        lemma_holds(refused.message(), head + "node "@, node, end);
        assert(end.skip(5) =~= "no RDMA module loaded"@);
        assert(end =~= end.take(5) + end.skip(5));
        lemma_holds(
            refused.message(),
            head + "node "@ + node + end.take(5),
            "no RDMA module loaded"@,
            none,
        );
    }
}

/// A server that does not know the command says so somewhere in its answer, in either of
/// two wordings and in any mixture of capitals.
pub proof fn an_unknown_command_is_told_by_its_wording(
    before: Seq<u8>,
    written: Seq<u8>,
    after: Seq<u8>,
    message: Seq<char>,
)
    requires
        encode_utf8(message) == before + written + after,
        spells(written, "unknown command"@) || spells(written, "unknown or disabled command"@),
    ensures
        says_unknown(message),
{
    reveal_strlit("unknown command");
    reveal_strlit("unknown or disabled command");
    let short = ascii_bytes("unknown command"@);
    let long = ascii_bytes("unknown or disabled command"@);
    if spells(written, "unknown command"@) {
        case_is_all_that_is_ignored(written, short);
        a_phrase_is_found_anywhere(before, short, written, after);
    } else {
        case_is_all_that_is_ignored(written, long);
        a_phrase_is_found_anywhere(before, long, written, after);
    }
}

/// A handshake reply that could not be read is a type error that names the node and says
/// why.
pub proof fn an_unreadable_handshake_names_the_node(node: Seq<char>, reason: Seq<char>)
    ensures
        unreadable_handshake(node, reason).kind() == ErrorKind::TypeError,
        holds(unreadable_handshake(node, reason).message(), node),
        holds(unreadable_handshake(node, reason).message(), reason),
{
    let message = unreadable_handshake(node, reason).message();
    let head = "RDMA error"@ + " - "@ + kind_name(ErrorKind::TypeError) + ": "@
        + "rdma protocol error: "@;
    let between = " returned a malformed LO.HELLO reply: "@;
    lemma_holds(message, head + "node "@, node, between + reason);
    lemma_holds(message, head + "node "@ + node + between, reason, Seq::empty());
}

/// What cancelled a transfer is told apart: a closed client from a revoked region.
pub proof fn a_cancellation_tells_what_cancelled()
    ensures
        cancellation_error(true).message() != cancellation_error(false).message(),
        cancellation_error(true).kind() == ErrorKind::ClientError,
        cancellation_error(false).kind() == ErrorKind::ClientError,
        holds(cancellation_error(true).message(), "the client was closed"@),
        holds(cancellation_error(false).message(), "its region was revoked"@),
{
    reveal_strlit("the client was closed");
    reveal_strlit("its region was revoked");
    let head = CANCELLED@ + " - "@ + kind_name(ErrorKind::ClientError) + ": "@;
    let none = Seq::<char>::empty();
    lemma_holds(cancellation_error(true).message(), head, "the client was closed"@, none);
    lemma_holds(cancellation_error(false).message(), head, "its region was revoked"@, none);
    assert(cancellation_error(true).message().len() != cancellation_error(false).message().len());
}

/// A server that is taken not to know the command did say so, in one of the two wordings.
pub proof fn no_other_wording_is_an_unknown_command(message: Seq<char>)
    requires
        says_unknown(message),
    ensures
        exists|before: Seq<u8>, written: Seq<u8>, after: Seq<u8>|
            {
                &&& encode_utf8(message) == #[trigger] (before + written + after)
                &&& spells(written, "unknown command"@) || spells(
                    written,
                    "unknown or disabled command"@,
                )
            },
{
    let bytes = encode_utf8(message);
    let phrase = if mentions(bytes, ascii_bytes("unknown command"@)) {
        ascii_bytes("unknown command"@)
    } else {
        ascii_bytes("unknown or disabled command"@)
    };
    a_phrase_found_is_there(bytes, phrase);
    let (before, written, after) = choose|before: Seq<u8>, written: Seq<u8>, after: Seq<u8>|
        {
            &&& bytes == #[trigger] (before + written + after)
            &&& written.len() == phrase.len()
            &&& forall|i: int|
                0 <= i < phrase.len() ==> same_letter(#[trigger] written[i], phrase[i])
        };
    case_is_all_that_is_ignored(written, phrase);
    assert(encode_utf8(message) == before + written + after);
}

/// A malformed handshake is a type error that names the node, and says why unless the
/// operating system chose the words.
pub proof fn a_malformed_handshake_names_the_node(
    node: Seq<char>,
    error: RequestErrorView,
    malformed: RequestErrorView,
)
    requires
        reports_malformed(node, error, malformed),
    ensures
        malformed.kind() == ErrorKind::TypeError,
        holds(malformed.message(), node),
        !error.worded_elsewhere() ==> holds(malformed.message(), error.message()),
{
    let reason = choose|reason: Seq<char>|
        {
            &&& malformed == #[trigger] unreadable_handshake(node, reason)
            &&& !error.worded_elsewhere() ==> reason == error.message()
        };
    an_unreadable_handshake_names_the_node(node, reason);
}

} // verus!
