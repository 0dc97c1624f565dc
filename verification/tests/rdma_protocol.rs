//! The RESP side of the RDMA commands.

use glide_fabric::rdma::error::RdmaError;
use glide_fabric::rdma::protocol::{
    as_redis_error, cancelled, configuration_error, hello_command, hello_from, parse_hello,
    parse_read_reply, parse_receipt, parse_write_ack, parse_write_reply, receipt_from,
    write_ack_from, CANCELLED,
};
use glide_fabric::rdma::receipt::{ReadReceipt, TransferReply};
use glide_fabric::resp::{ErrorKind, Reply, RequestError};
use redis::Value;

fn args(command: &redis::Cmd) -> Vec<String> {
    command
        .args_iter()
        .map(|arg| match arg {
            redis::Arg::Simple(bytes) => String::from_utf8_lossy(bytes).into_owned(),
            _ => "<non-simple>".to_string(),
        })
        .collect()
}

/// Turning a command into a `Cmd` keeps the name and every argument unchanged.
#[test]
fn a_command_maps_onto_a_cmd_in_wire_order() {
    let command = hello_command(&[0xde, 0xad]);
    assert_eq!(args(&command), ["LO.HELLO", "dead"]);
}

#[test]
fn read_replies_become_transfer_replies() {
    assert_eq!(
        parse_read_reply(Value::Nil).unwrap(),
        TransferReply::Missing
    );
    assert_eq!(
        parse_read_reply(Value::Int(8)).unwrap(),
        TransferReply::Read(ReadReceipt {
            bytes_written: 8,
            checksum: None
        })
    );
    assert!(parse_read_reply(Value::Okay).is_err());
}

#[test]
fn write_replies_become_transfer_replies() {
    assert_eq!(
        parse_write_reply(Value::Okay).unwrap(),
        TransferReply::Stored
    );
    assert!(parse_write_reply(Value::Nil).is_err());
}

/// Clients in other languages tell a cancellation apart by its message, and a
/// revoked buffer is one.
#[test]
fn a_revoked_buffer_is_a_cancellation() {
    let error = as_redis_error(RdmaError::Revoked).message();
    assert!(error.starts_with(CANCELLED), "{error}");
}

#[test]
fn a_write_is_acknowledged_by_ok() {
    assert!(parse_write_ack(Value::Okay).is_ok());
    assert!(parse_write_ack(Value::SimpleString("ok".into())).is_ok());
}

#[test]
fn a_write_reply_that_is_not_ok_is_a_protocol_error() {
    assert!(parse_write_ack(Value::Int(64)).is_err());
    assert!(parse_write_ack(Value::Nil).is_err());
}

#[test]
fn parses_a_missing_key_as_none() {
    assert_eq!(parse_receipt(Value::Nil).unwrap(), None);
}

#[test]
fn parses_a_bare_byte_count() {
    let receipt = parse_receipt(Value::Int(1024)).unwrap().unwrap();
    assert_eq!(receipt.bytes_written, 1024);
    assert_eq!(receipt.checksum, None);
}

#[test]
fn parses_a_byte_count_and_checksum() {
    let reply = Value::Array(vec![Value::Int(1024), Value::Int(0xE306_9283)]);
    let receipt = parse_receipt(reply).unwrap().unwrap();
    assert_eq!(receipt.bytes_written, 1024);
    assert_eq!(receipt.checksum, Some(0xE306_9283));
}

#[test]
fn rejects_a_malformed_pair() {
    let reply = Value::Array(vec![Value::Int(1), Value::Int(2), Value::Int(3)]);
    assert!(parse_receipt(reply).is_err());
}

#[test]
fn parses_every_hello_address() {
    let reply = Value::Array(vec![
        Value::BulkString(b"dead".to_vec().into()),
        Value::BulkString(b"beef".to_vec().into()),
    ]);
    let handshake = parse_hello(reply).unwrap();
    assert_eq!(handshake.peers, [vec![0xde, 0xad], vec![0xbe, 0xef]]);
}

#[test]
fn rejects_an_empty_hello() {
    assert!(parse_hello(Value::Array(vec![])).is_err());
}

#[test]
fn rdma_errors_carry_their_kind_and_message() {
    let too_large = as_redis_error(RdmaError::PayloadTooLarge {
        value_bytes: 1_048_576,
        capacity: 65_536,
    });
    assert_eq!(too_large.kind(), ErrorKind::UserOperationError);
    assert!(too_large.message().contains("1048576"));

    let fabric = as_redis_error(RdmaError::Fabric {
        operation: "fi_mr_reg",
        message: "Cannot allocate memory".into(),
        errno: Some(-12),
    });
    assert_eq!(fabric.kind(), ErrorKind::IoError);
}

/// Clients in other languages tell a cancellation from other failures by how
/// its message begins.
#[test]
fn a_cancellation_message_begins_with_the_marker() {
    let error = cancelled("the client was closed".to_string());

    assert!(error.message().starts_with(CANCELLED), "{error:?}");
    assert_eq!(error.kind(), ErrorKind::ClientError);
}

#[test]
fn every_failure_has_its_kind() {
    let cases = [
        (RdmaError::Protocol(String::new()), ErrorKind::TypeError),
        (RdmaError::ByteCountMismatch { expected: 1, actual: 2 }, ErrorKind::ClientError),
        (RdmaError::ChecksumMismatch { expected: 1, actual: 2 }, ErrorKind::ClientError),
        (RdmaError::Configuration(String::new()), ErrorKind::InvalidClientConfig),
        (
            RdmaError::LibfabricUnavailable { detail: String::new() },
            ErrorKind::InvalidClientConfig,
        ),
        (RdmaError::Revoked, ErrorKind::ClientError),
    ];
    for (error, kind) in cases {
        assert_eq!(as_redis_error(error).kind(), kind);
    }
    assert_eq!(
        configuration_error("no card".to_string()).message(),
        "RDMA error - InvalidClientConfig: fabric configuration error: no card"
    );
}

/// The message is laid out as the `redis` crate lays out its own.
#[test]
fn a_raised_error_reads_like_a_reported_one() {
    let reported = redis::RedisError::from((
        redis::ErrorKind::ClientError,
        CANCELLED,
        "the client was closed".to_string(),
    ));
    let raised = cancelled("the client was closed".to_string());
    assert_eq!(raised.message(), reported.to_string());
    assert_eq!(RequestError::Reported(reported).message(), raised.message());
}

#[test]
fn an_unreadable_reply_is_shown_as_it_came() {
    let error = parse_write_ack(Value::Int(64)).unwrap_err();
    assert_eq!(
        error.message(),
        format!(
            "RDMA error - TypeError: rdma protocol error: expected OK from lo.set, got {:?}",
            Value::Int(64)
        )
    );
    let error = parse_receipt(Value::Okay).unwrap_err();
    assert!(
        error.message().ends_with(&format!("unexpected reply {:?}", Value::Okay)),
        "{error:?}"
    );
    let error = receipt_from(Reply::Int(-1), String::new()).unwrap_err();
    assert!(error.message().ends_with("negative byte count -1"), "{error:?}");
    let error = parse_receipt(Value::Array(vec![Value::Int(1), Value::Int(-1)])).unwrap_err();
    assert!(error.message().ends_with("checksum out of range -1"), "{error:?}");
}

#[test]
fn ok_in_any_case_acknowledges() {
    for status in ["ok", "OK", "Ok", "oK"] {
        assert!(parse_write_ack(Value::SimpleString(status.to_string())).is_ok());
        assert!(write_ack_from(Reply::SimpleString(status.to_string()), String::new()).is_ok());
    }
    for status in ["", "o", "okay", "QUEUED"] {
        assert!(parse_write_ack(Value::SimpleString(status.to_string())).is_err());
    }
}

#[test]
fn a_malformed_hello_has_its_reason() {
    let reason = |reply: Value| parse_hello(reply).unwrap_err().message();
    assert!(reason(Value::Nil).ends_with("lo.hello returned no addresses"));
    assert!(reason(Value::Int(1)).contains("lo.hello: "));
    assert!(
        reason(Value::Array(vec![Value::BulkString(b"xy".to_vec())]))
            .ends_with("invalid hex in address")
    );
    assert_eq!(
        hello_from(Ok(vec!["FF".to_string(), "00".to_string()])).unwrap().peers,
        [vec![0xff], vec![0x00]]
    );
    let error = hello_from(Err("no list".to_string())).unwrap_err();
    assert!(error.message().ends_with("lo.hello: no list"), "{error:?}");
}
