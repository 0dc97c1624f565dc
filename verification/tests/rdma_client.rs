//! Handshakes, refusals, regions and settings of an RDMA client.

use std::cell::Cell;
use std::rc::Rc;

use glide_fabric::config::{FabricConfig, Provider};
use glide_fabric::rdma::command::needs_session;
use glide_fabric::rdma::connection::{open_reported_session, Rdma, Step};
use glide_fabric::rdma::error::RdmaError;
use glide_fabric::rdma::handshake::{
    cancellation, cancelled_if_revoked, handshake_refused, malformed_handshake,
};
use glide_fabric::rdma::protocol::as_redis_error;
use glide_fabric::rdma::refusal::{
    refuse_direct, refuse_direct_among, refuse_direct_command, refuse_direct_in_batch,
};
use glide_fabric::rdma::regions::{CloseState, Regions};
use glide_fabric::rdma::session::Handshake;
use glide_fabric::rdma::setting::{open, RdmaFabric, RdmaSetting, RdmaUnavailable};
use glide_fabric::resp::{build_command, ErrorKind, RequestError};
use redis::Value;

fn server_error(detail: &str) -> RequestError {
    RequestError::Reported(redis::RedisError::from((
        redis::ErrorKind::ResponseError,
        "An error was signalled by the server",
        detail.to_string(),
    )))
}

#[test]
fn a_server_that_does_not_know_the_command_has_no_module() {
    for detail in [
        "unknown command 'LO.HELLO'",
        "unknown or disabled command 'LO.HELLO'",
    ] {
        let failure = handshake_refused("10.0.0.1:6379", server_error(detail));
        let message = failure.message();

        assert!(message.contains("no RDMA module loaded"), "{message}");
        assert!(message.contains("10.0.0.1:6379"), "{message}");
    }
}

#[test]
fn a_replica_refusal_names_the_node_and_stays_readonly() {
    let failure = handshake_refused("10.0.0.1:6379", replica_refusal());

    assert_eq!(failure.kind(), ErrorKind::ReadOnly);
    let message = failure.message();
    assert!(message.contains("10.0.0.1:6379"), "{message}");
    assert!(message.contains("refused the RDMA handshake"), "{message}");
    assert!(message.contains("read only replica"), "{message}");
}

/// A `READONLY` reply exactly as the parser builds it from the wire.
fn replica_refusal() -> RequestError {
    RequestError::Reported(
        redis::parse_redis_value(b"-READONLY You can't write against a read only replica.\r\n")
            .and_then(|reply| reply.extract_error())
            .expect_err("a READONLY reply is an error"),
    )
}

#[test]
fn a_handshake_that_was_never_answered_is_returned_unchanged() {
    for unanswered in [
        redis::RedisError::from(std::io::Error::from(std::io::ErrorKind::BrokenPipe)),
        redis::RedisError::from((redis::ErrorKind::IoError, "connection closed")),
        redis::RedisError::from((redis::ErrorKind::BusyLoadingError, "LOADING")),
        redis::RedisError::from((redis::ErrorKind::TryAgain, "TRYAGAIN")),
    ] {
        let unanswered = RequestError::Reported(unanswered);
        let kind = unanswered.kind();
        let message = unanswered.message();

        let failure = handshake_refused("10.0.0.1:6379", unanswered);

        assert_eq!(
            failure.kind(),
            kind,
            "{kind:?} must reach the caller unchanged"
        );
        assert_eq!(failure.message(), message);
    }
}

#[test]
fn an_unreadable_reply_names_the_node_and_stays_a_protocol_error() {
    let unreadable = as_redis_error(RdmaError::Protocol(
        "lo.hello returned no addresses".to_string(),
    ));

    let failure = malformed_handshake("10.0.0.1:6379", unreadable);

    assert_eq!(failure.kind(), ErrorKind::TypeError);
    let message = failure.message();
    assert!(message.contains("10.0.0.1:6379"), "{message}");
    assert!(message.contains("malformed LO.HELLO reply"), "{message}");
}

fn tcp_endpoint(_config: &FabricConfig) -> Result<Vec<u8>, RdmaError> {
    Ok(vec![0xde, 0xad])
}

fn tcp_fabric() -> RdmaFabric {
    RdmaFabric::open(&FabricConfig::new(Provider::Tcp), tcp_endpoint).expect("tcp opens")
}

#[test]
fn an_absent_setting_opens_nothing() {
    assert!(matches!(open(&RdmaSetting::Absent, tcp_endpoint), Ok(None)));
}

#[test]
fn rdma_commands_are_refused_outside_the_rdma_methods() {
    for name in [b"LO.HELLO".as_slice(), b"LO.GET", b"LO.SET", b"lo.get"] {
        let error = refuse_direct(name).expect_err("an RDMA command is refused");
        assert_eq!(error.kind(), ErrorKind::ClientError);
        assert!(
            error.message().contains("RDMA transfer methods"),
            "{error:?}"
        );
    }
    for name in [b"GET".as_slice(), b"SET", b"LO", b"LO.GETX", b""] {
        assert!(
            refuse_direct(name).is_ok(),
            "{:?}",
            String::from_utf8_lossy(name)
        );
    }
}

#[test]
fn a_batch_with_an_rdma_command_is_refused() {
    let mut batch = redis::pipe();
    batch.cmd("SET").arg("key").arg("value");
    assert!(refuse_direct_in_batch(&batch).is_ok());

    batch.cmd("LO.SET").arg("key").arg("8").arg("7").arg("4096");
    assert!(refuse_direct_in_batch(&batch).is_err());
}

#[test]
fn mod_an_absent_setting_logs_nothing() {
    assert_eq!(RdmaSetting::Absent.log_summary(), "");
}

#[test]
fn mod_not_compiled_in_names_the_remedy() {
    let setting = RdmaSetting::Rejected(RdmaUnavailable::NotCompiledIn);
    let error = open(&setting, tcp_endpoint).unwrap_err();
    let message = error.message();
    assert!(message.contains("built from source"), "{message}");
    assert!(message.contains("`rdma` feature"), "{message}");
}

/// A region, and what revokes it.
#[derive(Debug, Clone)]
struct Region {
    revoked: Rc<Cell<bool>>,
}

impl Region {
    fn is_revoked(&self) -> bool {
        self.revoked.get()
    }
}

/// Register a region of this many bytes, as a fabric would.
fn register(length: usize) -> Result<(Region, Region), RdmaError> {
    if length == 0 {
        return Err(RdmaError::Configuration("cannot register 0 bytes".to_string()));
    }
    let region = Region {
        revoked: Rc::new(Cell::new(false)),
    };
    Ok((region.clone(), region))
}

/// A region is gone once only its revoker is left.
fn is_released(revoker: &Region) -> bool {
    Rc::strong_count(&revoker.revoked) == 1
}

fn revoke(revoker: &Region) -> Result<(), RdmaError> {
    revoker.revoked.set(true);
    Ok(())
}

fn busy(_revoker: &Region) -> Result<(), RdmaError> {
    Err(RdmaError::Fabric {
        operation: "fi_close",
        message: "Device or resource busy".to_string(),
        errno: Some(-16),
    })
}

#[test]
fn closing_revokes_every_registered_region() {
    let mut regions = Regions::default();
    let first = regions.register(|| register(64), is_released).unwrap();
    let second = regions.register(|| register(64), is_released).unwrap();

    regions.close(revoke).expect("both regions close");

    assert!(first.is_revoked());
    assert!(second.is_revoked());
    assert!(regions.is_closed());
    regions.close(revoke).expect("closing again is a no-op");
}

#[test]
fn a_closed_client_registers_nothing() {
    let mut regions: Regions<Region> = Regions::default();
    regions.close(revoke).unwrap();

    let called = Cell::new(false);
    let refused = regions
        .register(
            || {
                called.set(true);
                register(64)
            },
            is_released,
        )
        .expect_err("registration after close is refused");

    assert!(!called.get(), "no memory is pinned for a refused registration");
    assert!(refused.message().contains("closed"), "{refused:?}");
}

#[test]
fn freed_regions_drop_out_of_the_list() {
    let mut regions = Regions::default();
    for _ in 0..10 {
        drop(regions.register(|| register(64), is_released).unwrap());
    }
    let _kept = regions.register(|| register(64), is_released).unwrap();

    assert_eq!(regions.count(), 1);
}

#[test]
fn a_failed_registration_is_not_recorded() {
    let mut regions = Regions::default();

    regions
        .register(|| register(0), is_released)
        .expect_err("0 bytes cannot be registered");

    assert_eq!(regions.count(), 0);
}

/// What the server sends when a revoke beat its transfer.
fn failed_rma() -> Result<Value, RequestError> {
    Err(server_error("EFA write"))
}

#[test]
fn a_failure_on_a_revoked_region_is_the_cancellation() {
    let closed = cancelled_if_revoked(failed_rma(), true, true).unwrap_err();
    assert!(
        closed.message().contains("the client was closed"),
        "{closed:?}"
    );
    assert_eq!(closed.kind(), ErrorKind::ClientError);

    let revoked = cancelled_if_revoked(failed_rma(), true, false).unwrap_err();
    assert!(
        revoked.message().contains("region was revoked"),
        "{revoked:?}"
    );
}

#[test]
fn a_failure_while_the_client_closes_is_the_cancellation() {
    let closing = cancelled_if_revoked(failed_rma(), false, true).unwrap_err();
    assert!(
        closing.message().contains("the client was closed"),
        "{closing:?}"
    );
}

#[test]
fn a_failure_on_a_live_region_is_the_servers_own() {
    let failure = cancelled_if_revoked(failed_rma(), false, false).unwrap_err();
    assert!(failure.message().contains("EFA write"), "{failure:?}");
}

/// The transfer finished before the revoke reached it, so it succeeded.
#[test]
fn a_success_on_a_revoked_region_stays_a_success() {
    let reply = cancelled_if_revoked(Ok(Value::Int(8)), true, true);
    assert_eq!(reply.unwrap(), Value::Int(8));
}

#[test]
fn a_close_is_finished_once_every_region_was_tried() {
    let mut regions = Regions::default();
    let _region = regions.register(|| register(64), is_released).unwrap();

    assert!(!regions.close_finished(), "nothing has closed yet");

    regions.close(revoke).unwrap();

    assert!(regions.close_finished(), "the close has finished");
}

#[test]
fn a_region_that_failed_to_close_is_tried_again() {
    let mut regions = Regions::default();
    let region = regions.register(|| register(64), is_released).unwrap();

    let failed = regions.close(busy);

    assert!(failed.is_err());
    assert!(!region.is_revoked());
    assert_eq!(regions.count(), 1, "the failed region stays on the list");

    regions.close(revoke).expect("the second close revokes it");

    assert!(region.is_revoked());
    assert_eq!(regions.count(), 0);
}

/// Every region is tried, whatever becomes of the others; the first failure is the one
/// reported, and the ones that failed stay in order.
#[test]
fn a_failure_does_not_stop_a_close() {
    let mut regions: Regions<u8> = Regions::default();
    for number in 0..5u8 {
        regions
            .register(|| Ok::<((), u8), RdmaError>(((), number)), |_| false)
            .unwrap();
    }
    let tried = Cell::new(0);
    let failed = regions
        .close(|number: &u8| {
            tried.set(tried.get() + 1);
            if number % 2 == 1 {
                Err(RdmaError::Configuration(format!("region {number}")))
            } else {
                Ok(())
            }
        })
        .unwrap_err();
    assert_eq!(tried.get(), 5);
    assert!(failed.message().ends_with("region 1"), "{failed:?}");
    assert_eq!(regions.count(), 2);

    let again = regions
        .close(|number: &u8| Err(RdmaError::Configuration(format!("region {number}"))))
        .unwrap_err();
    assert!(again.message().ends_with("region 1"), "{again:?}");
    assert_eq!(regions.count(), 2);
}

/// A client refuses from the start of a close, before its regions are revoked.
#[test]
fn a_close_refuses_from_its_start() {
    let mut regions: Regions<Region> = Regions::default();
    let region = regions.register(|| register(8), is_released).unwrap();
    assert_eq!(regions.state(), CloseState::Open);
    regions.begin_close();
    assert!(regions.is_closed());
    assert!(!regions.close_finished());
    assert!(!region.is_revoked());
    assert!(regions.register(|| register(8), is_released).is_err());
    regions.revoke_all(revoke).unwrap();
    assert!(region.is_revoked());
    regions.begin_close();
    assert_eq!(regions.state(), CloseState::Closed, "a finished close stays finished");
}

#[test]
fn refusals_are_worded_exactly() {
    let error = refuse_direct(b"lo.Get").unwrap_err();
    assert_eq!(
        error.message(),
        "RDMA command refused - ClientError: lo.Get can only be sent by the client's RDMA transfer methods"
    );
    assert_eq!(
        cancellation(false).message(),
        "RDMA transfer cancelled - ClientError: its region was revoked"
    );
    let missing = handshake_refused("n", server_error("ERR UNKNOWN Command"));
    assert_eq!(
        missing.message(),
        "RDMA error - InvalidClientConfig: fabric configuration error: node n has no RDMA module loaded"
    );
    let other = handshake_refused("n", server_error("no room"));
    assert_eq!(other.kind(), ErrorKind::InvalidClientConfig);
    assert!(other.message().contains("node n refused the RDMA handshake: "), "{other:?}");
    assert!(other.message().contains("no room"), "{other:?}");
}

#[test]
fn a_built_command_is_refused_by_its_name() {
    let hello = build_command("Lo.Hello", &[b"key".to_vec()]);
    let plain = build_command("GET", &[b"LO.GET".to_vec()]);
    assert!(refuse_direct_command(&hello).is_err());
    assert!(refuse_direct_command(&plain).is_ok());
    assert!(refuse_direct_command(&redis::Cmd::new()).is_ok());
    assert!(refuse_direct_among(&[&plain, &hello]).unwrap_err().message().contains("Lo.Hello"));
    assert!(refuse_direct_among(&[&plain]).is_ok());
}

fn transfer() -> redis::Cmd {
    build_command("LO.GET", &[b"key".to_vec()])
}

fn hello_reply() -> Result<Value, RequestError> {
    Ok(Value::Array(vec![Value::BulkString(b"beef".to_vec())]))
}

#[test]
fn only_transfers_need_a_session() {
    for name in [b"LO.GET".as_slice(), b"LO.SET", b"lo.set"] {
        assert!(needs_session(name));
    }
    for name in [b"LO.HELLO".as_slice(), b"GET", b""] {
        assert!(!needs_session(name));
    }
}

/// The first transfer handshakes with the client's address, and no other does.
#[test]
fn a_session_is_opened_by_the_first_transfer_and_only_once() {
    let mut rdma: Rdma<Vec<Vec<u8>>> = Rdma::new(tcp_fabric(), "node:1");
    assert!(matches!(rdma.before(&build_command("GET", &[])), Step::Send));
    let hello = match rdma.before(&transfer()) {
        Step::Handshake(hello) => hello,
        Step::Send => panic!("a first transfer handshakes"),
    };
    assert_eq!(hello.get_packed_command(), redis::cmd("LO.HELLO").arg("dead").get_packed_command());

    rdma.conclude(hello_reply(), |handshake: &Handshake| Ok(handshake.peers.clone()))
        .expect("the session opens");
    assert_eq!(rdma.session(), Some(&vec![vec![0xbe, 0xef]]));
    assert!(matches!(rdma.before(&transfer()), Step::Send));

    rdma.conclude(hello_reply(), |_: &Handshake| unreachable!())
        .expect("an open session stays");
    assert_eq!(rdma.session(), Some(&vec![vec![0xbe, 0xef]]));
}

/// A replica refuses every handshake until it is promoted, so a refusal is not
/// remembered.
#[test]
fn a_refused_handshake_is_retried_by_the_next_transfer() {
    let mut rdma: Rdma<()> = Rdma::new(tcp_fabric(), "node:1");
    let refused = rdma
        .conclude(Err(replica_refusal()), |_: &Handshake| unreachable!())
        .unwrap_err();
    assert_eq!(refused.kind(), ErrorKind::ReadOnly);
    assert!(refused.message().contains("node:1"), "{refused:?}");
    assert!(matches!(rdma.before(&transfer()), Step::Handshake(_)));

    let malformed = rdma
        .conclude(Ok(Value::Nil), |_: &Handshake| unreachable!())
        .unwrap_err();
    assert!(malformed.message().contains("malformed LO.HELLO reply"), "{malformed:?}");

    let failed = rdma
        .conclude(hello_reply(), |_: &Handshake| Err(RdmaError::Configuration("full".to_string())))
        .unwrap_err();
    assert_eq!(failed.kind(), ErrorKind::InvalidClientConfig);
    assert!(rdma.session().is_none());

    rdma.conclude(hello_reply(), |_: &Handshake| Ok(())).expect("promoted");
    assert!(matches!(rdma.before(&transfer()), Step::Send));
}

#[test]
fn a_reported_session_is_opened_for_its_peers() {
    let handshake = Handshake { peers: vec![vec![1], vec![2]] };
    let opened = open_reported_session("node:1", Ok(handshake), |handshake: &Handshake| {
        Ok(handshake.peers.len())
    });
    assert_eq!(opened.unwrap(), 2);
}

#[test]
fn rdma_settings_are_worded_and_opened() {
    let config = FabricConfig::new(Provider::Tcp).with_bind("10.0.0.1");
    let setting = RdmaSetting::Configured(config);
    assert_eq!(setting.log_summary(), "\nRDMA: Tcp, bind: 10.0.0.1");
    assert!(setting.is_requested());
    assert!(!RdmaSetting::default().is_requested());
    let fabric = open(&setting, tcp_endpoint).unwrap().unwrap();
    assert_eq!(fabric.get().local_address(), &[0xde, 0xad]);
    assert_eq!(fabric.clone().opened(), tcp_fabric());

    let failed = open(&setting, |_| Err(RdmaError::Configuration("no card".to_string()))).unwrap_err();
    assert_eq!(failed.message(), "fabric configuration error: no card");

    let node = "node:1".to_string();
    let cases = [
        (RdmaUnavailable::NoProviderConfigured, "RdmaConfiguration requires a provider; none was set"),
        (
            RdmaUnavailable::ServerModuleMissing { node: node.clone() },
            "node node:1 has no RDMA module loaded",
        ),
        (
            RdmaUnavailable::HandshakeRefused { node: node.clone(), reason: "no".to_string() },
            "node node:1 refused the RDMA handshake: no",
        ),
        (
            RdmaUnavailable::MalformedHandshake { node, reason: "odd".to_string() },
            "node node:1 returned a malformed LO.HELLO reply: odd",
        ),
    ];
    for (reason, message) in cases {
        assert_eq!(
            RdmaSetting::Rejected(reason.clone()).log_summary(),
            format!("\nRDMA: unavailable ({message})")
        );
        assert_eq!(reason.message(), message);
    }
}

/// The kinds of the `redis` crate are told apart as it reports them.
#[test]
fn reported_errors_keep_their_facts() {
    let dropped = RequestError::Reported(redis::RedisError::from(std::io::Error::from(
        std::io::ErrorKind::BrokenPipe,
    )));
    assert!(dropped.is_io_error() && dropped.is_connection_dropped() && !dropped.is_timeout());
    let late = RequestError::Reported(redis::RedisError::from(std::io::Error::from(
        std::io::ErrorKind::TimedOut,
    )));
    assert!(late.is_timeout() && !late.is_connection_dropped());
    let other = RequestError::Reported(redis::RedisError::from((redis::ErrorKind::Ask, "x")));
    assert_eq!(other.kind(), ErrorKind::Other);
    assert!(!other.is_io_error());
}
