//! The RDMA session that belongs to a connection.
//!
//! A server records where to reach a client's memory against the connection the
//! handshake arrived on, so the session is paired with the connection on the client
//! side as well.
//!
//! The session is opened by the first transfer that needs it rather than when
//! the connection is built. A connection that never carries a transfer -- every
//! replica connection, every connection of a client that only ever sends
//! ordinary commands -- never sends `LO.HELLO` at all.

use vstd::prelude::*;
#[allow(unused_imports)]
use vstd::utf8::encode_utf8;

#[allow(unused_imports)]
use crate::hex::{all_hex, decoded, hex_bytes};
use crate::rdma::command::needs_session;
#[allow(unused_imports)]
use crate::rdma::command::{
    hello_layout, is_letter, is_transfer, ordinary_names_are_no_transfer,
    transfers_are_lo_get_and_lo_set,
};
use crate::rdma::error::RdmaError;
use crate::rdma::handshake::{handshake_refused, malformed_handshake};
#[allow(unused_imports)]
use crate::rdma::handshake::{
    a_malformed_handshake_names_the_node, refused_handshake, reports_malformed,
};
#[allow(unused_imports)]
use crate::text::holds;
use crate::rdma::protocol::{as_redis_error, hello_command, parse_hello};
#[allow(unused_imports)]
use crate::rdma::protocol::{handshake_outcome, hello_of, on_the_wire, request_error};
use crate::rdma::session::Handshake;
use crate::rdma::setting::RdmaFabric;
use crate::resp::{first_argument, RequestError};
#[allow(unused_imports)]
use crate::resp::{
    byte_strings, command_arguments, command_name, reply_strings, RequestErrorView,
};

verus! {

/// What a connection needs to open its session, and the session once open.
#[derive(Debug)]
pub struct Rdma<S> {
    fabric: RdmaFabric,
    /// Only for error messages: a failed handshake has to say which node.
    node: String,
    session: Option<S>,
}

/// The mathematical form of [`Rdma`].
pub struct RdmaView<S> {
    pub address: Seq<u8>,
    pub node: Seq<char>,
    pub session: Option<S>,
}

impl<S> View for Rdma<S> {
    type V = RdmaView<S>;

    closed spec fn view(&self) -> RdmaView<S> {
        RdmaView { address: self.fabric@, node: self.node@, session: self.session }
    }
}

/// What is to be done before a command is sent.
pub enum Step {
    /// Nothing: send it.
    Send,
    /// Send this handshake, and send the command once it has succeeded.
    Handshake(redis::Cmd),
}

/// Whether a command is a transfer.
pub open spec fn is_transfer_command(command: redis::Cmd) -> bool {
    match command_name(command) {
        Some(name) => is_transfer(name),
        None => false,
    }
}

/// Whether a command needs the session, whether or not it is open.
pub fn command_needs_session(command: &redis::Cmd) -> (needed: bool)
    ensures
        needed == is_transfer_command(*command),
{
    match first_argument(command) {
        Some(name) => needs_session(name.as_slice()),
        None => false,
    }
}

/// What a handshake comes to, given what its reply says and what opening the session
/// that it reports came to. The session is opened only for a reply that could be read.
pub open spec fn session_opened<S, F: FnOnce(&Handshake) -> Result<S, RdmaError>>(
    node: Seq<char>,
    peers: Result<Seq<Seq<u8>>, RequestErrorView>,
    open_session: F,
    session: Result<S, RequestError>,
) -> bool {
    match peers {
        Err(error) => session is Err && reports_malformed(node, error, session->Err_0@),
        Ok(peers) => exists|handshake: &Handshake, opened: Result<S, RdmaError>|
            {
                &&& #[trigger] open_session.ensures((handshake,), opened)
                &&& byte_strings(handshake.peers@) == peers
                &&& match opened {
                    Ok(opened) => session == Ok::<S, RequestError>(opened),
                    Err(error) => session is Err && session->Err_0@ == request_error(error@),
                }
            },
    }
}

/// What a handshake comes to, given its reply.
pub open spec fn handshaken<S, F: FnOnce(&Handshake) -> Result<S, RdmaError>>(
    node: Seq<char>,
    reply: Result<redis::Value, RequestError>,
    open_session: F,
    session: Result<S, RequestError>,
) -> bool {
    match reply {
        Err(error) => session is Err && session->Err_0@ == refused_handshake(node, error@),
        Ok(value) => session_opened(
            node,
            hello_of(reply_strings(value)),
            open_session,
            session,
        ),
    }
}

/// Whether `open_session` may be called for what a reply says, if it could be read.
pub open spec fn may_open<S, F: FnOnce(&Handshake) -> Result<S, RdmaError>>(
    peers: Result<Seq<Seq<u8>>, RequestErrorView>,
    open_session: F,
) -> bool {
    peers is Ok ==> forall|handshake: &Handshake|
        byte_strings(handshake.peers@) == peers->Ok_0 ==> open_session.requires((handshake,))
}

/// Read the reply to `LO.HELLO` and open the session it reports with `open_session`.
pub fn conclude_handshake<S, F: FnOnce(&Handshake) -> Result<S, RdmaError>>(
    node: &str,
    reply: Result<redis::Value, RequestError>,
    open_session: F,
) -> (session: Result<S, RequestError>)
    requires
        reply is Ok ==> may_open(hello_of(reply_strings(reply->Ok_0)), open_session),
    ensures
        handshaken(node@, reply, open_session, session),
{
    match reply {
        Ok(value) => open_reported_session(node, parse_hello(value), open_session),
        Err(error) => Err(handshake_refused(node, error)),
    }
}

/// Open the session that a handshake reported, or say that it could not be read.
pub fn open_reported_session<S, F: FnOnce(&Handshake) -> Result<S, RdmaError>>(
    node: &str,
    handshake: Result<Handshake, RequestError>,
    open_session: F,
) -> (session: Result<S, RequestError>)
    requires
        may_open(handshake_outcome(handshake), open_session),
    ensures
        session_opened(node@, handshake_outcome(handshake), open_session, session),
{
    match handshake {
        Err(error) => Err(malformed_handshake(node, error)),
        Ok(handshake) => {
            let opened = open_session(&handshake);
            let ghost reported = opened;
            assert(open_session.ensures((&handshake,), reported));
            match opened {
                Ok(session) => Ok(session),
                Err(error) => Err(as_redis_error(error)),
            }
        },
    }
}

impl<S> RdmaView<S> {
    /// Whether a command has to wait for a handshake.
    pub open spec fn must_handshake(self, command: redis::Cmd) -> bool {
        self.session is None && is_transfer_command(command)
    }
}

/// What taking the reply to a handshake comes to.
pub open spec fn concluded<S, F: FnOnce(&Handshake) -> Result<S, RdmaError>>(
    before: RdmaView<S>,
    reply: Result<redis::Value, RequestError>,
    open_session: F,
    opened: Result<(), RequestError>,
    after: RdmaView<S>,
) -> bool {
    &&& after.address == before.address
    &&& after.node == before.node
    &&& match before.session {
        Some(session) => opened is Ok && after.session == Some(session),
        None => match opened {
            Ok(_) => after.session is Some && handshaken(
                before.node,
                reply,
                open_session,
                Ok(after.session->0),
            ),
            Err(error) => after.session is None && handshaken(
                before.node,
                reply,
                open_session,
                Err(error),
            ),
        },
    }
}

/// Only a transfer handshakes: any other command is sent as it is, whether or not a
/// session is open.
pub proof fn ordinary_commands_never_handshake<S>(rdma: RdmaView<S>, command: redis::Cmd)
    requires
        !is_transfer_command(command),
    ensures
        !rdma.must_handshake(command),
{
}

/// The handshake that succeeds is the last: no command waits for another, and the
/// session it opened stays whatever replies may still come.
pub proof fn a_session_is_opened_once<S, F: FnOnce(&Handshake) -> Result<S, RdmaError>>(
    before: RdmaView<S>,
    reply: Result<redis::Value, RequestError>,
    open_session: F,
    opened: Result<(), RequestError>,
    after: RdmaView<S>,
    later_reply: Result<redis::Value, RequestError>,
    later_open_session: F,
    later_opened: Result<(), RequestError>,
    later: RdmaView<S>,
)
    requires
        concluded(before, reply, open_session, opened, after),
        opened is Ok,
        concluded(after, later_reply, later_open_session, later_opened, later),
    ensures
        forall|command: redis::Cmd| !after.must_handshake(command),
        later_opened is Ok,
        later == after,
{
}

/// A refused handshake is not remembered: the next transfer handshakes again, as the
/// first did.
pub proof fn a_refused_handshake_is_tried_again<S, F: FnOnce(&Handshake) -> Result<S, RdmaError>>(
    before: RdmaView<S>,
    reply: Result<redis::Value, RequestError>,
    open_session: F,
    opened: Result<(), RequestError>,
    after: RdmaView<S>,
)
    requires
        concluded(before, reply, open_session, opened, after),
        opened is Err,
    ensures
        after == before,
        forall|command: redis::Cmd|
            is_transfer_command(command) ==> after.must_handshake(command),
{
}

/// A reply that is an error opens no session, whatever it is.
pub proof fn a_failed_reply_opens_nothing<S, F: FnOnce(&Handshake) -> Result<S, RdmaError>>(
    before: RdmaView<S>,
    reply: Result<redis::Value, RequestError>,
    open_session: F,
    opened: Result<(), RequestError>,
    after: RdmaView<S>,
)
    requires
        before.session is None,
        reply is Err,
        concluded(before, reply, open_session, opened, after),
    ensures
        opened is Err,
        opened->Err_0@ == refused_handshake(before.node, reply->Err_0@),
        after == before,
{
}

/// A reply that could not be read opens no session, and the failure names the node.
pub proof fn an_unreadable_reply_opens_nothing<S, F: FnOnce(&Handshake) -> Result<S, RdmaError>>(
    before: RdmaView<S>,
    value: redis::Value,
    open_session: F,
    opened: Result<(), RequestError>,
    after: RdmaView<S>,
)
    requires
        before.session is None,
        hello_of(reply_strings(value)) is Err,
        concluded(before, Ok(value), open_session, opened, after),
    ensures
        opened is Err,
        holds(opened->Err_0@.message(), before.node),
        after == before,
{
    let error = hello_of(reply_strings(value))->Err_0;
    a_malformed_handshake_names_the_node(before.node, error, opened->Err_0@);
}

impl<S> Rdma<S> {
    /// Pair a connection to `node` with the fabric its session will be opened on.
    pub fn new(fabric: RdmaFabric, node: &str) -> (rdma: Self)
        ensures
            rdma@ == (RdmaView { address: fabric@, node: node@, session: None::<S> }),
    {
        Rdma { fabric, node: node.to_string(), session: None }
    }

    /// What is to be done before `command` is sent: open the session if the command
    /// needs it and it is not already open.
    pub fn before(&self, command: &redis::Cmd) -> (step: Step)
        ensures
            match step {
                Step::Send => !self@.must_handshake(*command),
                Step::Handshake(hello) => self@.must_handshake(*command) && command_arguments(hello)
                    == on_the_wire(hello_layout(self@.address)),
            },
    {
        if self.session.is_some() || !command_needs_session(command) {
            return Step::Send;
        }
        Step::Handshake(hello_command(self.fabric.local_address()))
    }

    /// Take the reply to a handshake. Where it came to a session that session is open
    /// from now on; where it did not, none is, so the next transfer tries again. Once
    /// the session is open it stays the one it is, and no other is opened.
    pub fn conclude<F: FnOnce(&Handshake) -> Result<S, RdmaError>>(
        &mut self,
        reply: Result<redis::Value, RequestError>,
        open_session: F,
    ) -> (opened: Result<(), RequestError>)
        requires
            old(self)@.session is None && reply is Ok ==> may_open(
                hello_of(reply_strings(reply->Ok_0)),
                open_session,
            ),
        ensures
            concluded(old(self)@, reply, open_session, opened, final(self)@),
    {
        if self.session.is_some() {
            return Ok(());
        }
        match conclude_handshake(self.node.as_str(), reply, open_session) {
            Ok(session) => {
                self.session = Some(session);
                Ok(())
            },
            Err(error) => Err(error),
        }
    }

    /// The session, once it is open.
    pub fn session(&self) -> (session: Option<&S>)
        ensures
            match session {
                Some(session) => self@.session == Some(*session),
                None => self@.session is None,
            },
    {
        match &self.session {
            Some(session) => Some(session),
            None => None,
        }
    }
}

/// A command has to wait for a handshake just when no session is open and its first
/// argument is `lo.get` or `lo.set`, in any mixture of capitals.
pub proof fn only_lo_get_and_lo_set_handshake<S>(rdma: RdmaView<S>, command: redis::Cmd)
    ensures
        rdma.must_handshake(command) <==> {
            &&& rdma.session is None
            &&& command_arguments(command).len() > 0
            &&& command_arguments(command)[0] matches Some(name)
            &&& name.len() == 6 && is_letter(name[0], 'l') && is_letter(name[1], 'o') && name[2]
                == '.' as u8 && (is_letter(name[3], 'g') || is_letter(name[3], 's')) && is_letter(
                name[4],
                'e',
            ) && is_letter(name[5], 't')
        },
{
    if command_arguments(command).len() > 0 {
        if let Some(name) = command_arguments(command)[0] {
            transfers_are_lo_get_and_lo_set(name);
        }
    }
}

/// A command whose name does not start with `lo.`, in some mixture of capitals, is sent
/// as it is: the connection never handshakes for it.
pub proof fn a_command_of_another_kind_never_handshakes<S>(
    rdma: RdmaView<S>,
    command: redis::Cmd,
    name: Seq<u8>,
)
    requires
        command_arguments(command).len() > 0,
        command_arguments(command)[0] == Some(name),
        !(name.len() >= 3 && is_letter(name[0], 'l') && is_letter(name[1], 'o') && name[2]
            == '.' as u8),
    ensures
        !rdma.must_handshake(command),
{
    ordinary_names_are_no_transfer(name);
}

/// A handshake that was answered and whose session could be opened succeeds: the session
/// is the one that was opened, for the addresses that the reply lists.
pub proof fn an_answered_handshake_opens_its_session<
    S,
    F: FnOnce(&Handshake) -> Result<S, RdmaError>,
>(
    before: RdmaView<S>,
    value: redis::Value,
    encoded: Seq<Seq<char>>,
    open_session: F,
    opened: Result<(), RequestError>,
    after: RdmaView<S>,
)
    requires
        before.session is None,
        concluded(before, Ok(value), open_session, opened, after),
        reply_strings(value) == Ok::<Seq<Seq<char>>, Seq<char>>(encoded),
        encoded.len() > 0,
        forall|i: int|
            0 <= i < encoded.len() ==> hex_bytes(#[trigger] encode_utf8(encoded[i])) is Some,
        forall|handshake: &Handshake, session: Result<S, RdmaError>| #[trigger]
            open_session.ensures((handshake,), session) ==> session is Ok,
    ensures
        opened is Ok,
        exists|handshake: &Handshake, session: S|
            {
                &&& #[trigger] open_session.ensures((handshake,), Ok(session))
                &&& after.session == Some(session)
                &&& handshake.peers@.len() == encoded.len()
                &&& forall|i: int|
                    0 <= i < encoded.len() ==> hex_bytes(encode_utf8(#[trigger] encoded[i])) == Some(
                        handshake.peers@[i]@,
                    )
            },
{
    let peers = decoded(encoded);
    assert(all_hex(encoded));
    assert(hello_of(reply_strings(value)) == Ok::<Seq<Seq<u8>>, RequestErrorView>(peers));
    let ended = match opened {
        Ok(_) => Ok::<S, RequestError>(after.session->0),
        Err(error) => Err(error),
    };
    assert(session_opened(before.node, hello_of(reply_strings(value)), open_session, ended));
    let (handshake, result) = choose|handshake: &Handshake, result: Result<S, RdmaError>|
        {
            &&& #[trigger] open_session.ensures((handshake,), result)
            &&& byte_strings(handshake.peers@) == peers
            &&& match result {
                Ok(session) => ended == Ok::<S, RequestError>(session),
                Err(error) => ended is Err && ended->Err_0@ == request_error(error@),
            }
        };
    let session = result->Ok_0;
    assert(open_session.ensures((handshake,), Ok(session)));
    assert(handshake.peers@.len() == byte_strings(handshake.peers@).len());
    assert forall|i: int| 0 <= i < encoded.len() implies hex_bytes(
        encode_utf8(#[trigger] encoded[i]),
    ) == Some(handshake.peers@[i]@) by {
        assert(byte_strings(handshake.peers@)[i] == handshake.peers@[i]@);
        assert(peers[i] == hex_bytes(encode_utf8(encoded[i]))->0);
        assert(hex_bytes(encode_utf8(encoded[i])) is Some);
    }
}

/// A session that could not be opened is not open, and why is reported as any failure of
/// a transfer is.
pub proof fn a_session_that_fails_to_open_says_why<
    S,
    F: FnOnce(&Handshake) -> Result<S, RdmaError>,
>(
    before: RdmaView<S>,
    value: redis::Value,
    open_session: F,
    opened: Result<(), RequestError>,
    after: RdmaView<S>,
)
    requires
        before.session is None,
        hello_of(reply_strings(value)) is Ok,
        concluded(before, Ok(value), open_session, opened, after),
        opened is Err,
    ensures
        after == before,
        exists|handshake: &Handshake, error: RdmaError|
            {
                &&& #[trigger] open_session.ensures((handshake,), Err(error))
                &&& byte_strings(handshake.peers@) == hello_of(reply_strings(value))->Ok_0
                &&& opened->Err_0@ == request_error(error@)
            },
{
    let peers = hello_of(reply_strings(value))->Ok_0;
    let ended = Err::<S, RequestError>(opened->Err_0);
    assert(session_opened(before.node, hello_of(reply_strings(value)), open_session, ended));
    let (handshake, result) = choose|handshake: &Handshake, result: Result<S, RdmaError>|
        {
            &&& #[trigger] open_session.ensures((handshake,), result)
            &&& byte_strings(handshake.peers@) == peers
            &&& match result {
                Ok(session) => ended == Ok::<S, RequestError>(session),
                Err(error) => ended is Err && ended->Err_0@ == request_error(error@),
            }
        };
    assert(open_session.ensures((handshake,), Err(result->Err_0)));
}

} // verus!
