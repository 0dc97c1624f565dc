//! The `DMA.*` commands as the `redis` crate sends them, and its replies.

use glide_fabric::dma::advertisement::{decode_hex, encode_hex, Advertisement, AdvertisementError};
use glide_fabric::dma::command::{DmaGetOptions, DmaSetOptions};
use glide_fabric::dma::error::DmaError;
use glide_fabric::dma::protocol::{
    get_command, hello_command, hello_from, info_command, parse_hello, parse_receipt, receipt_from,
    set_command,
};
use glide_fabric::resp::{ErrorKind, Reply, ReplyItem, RequestError};
use redis::Value;

fn advertisement() -> Advertisement {
    Advertisement {
        address: vec![0xde, 0xad],
        remote_key: 7,
        remote_address: 0x1000,
    }
}

fn args(command: &redis::Cmd) -> Vec<String> {
    command
        .args_iter()
        .map(|arg| match arg {
            redis::Arg::Simple(bytes) => String::from_utf8_lossy(bytes).into_owned(),
            _ => "<non-simple>".to_string(),
        })
        .collect()
}

#[test]
fn set_maps_onto_a_cmd_in_wire_order() {
    let command = set_command(&advertisement(), b"key", 64, &DmaSetOptions::default());
    assert_eq!(
        args(&command),
        ["DMA.SET", "dead", "7", "4096", "64", "key"]
    );
}

#[test]
fn get_maps_onto_a_cmd_in_wire_order() {
    let options = DmaGetOptions::default().with_checksum();
    let command = get_command(&advertisement(), b"key", 64, &options);
    assert_eq!(
        args(&command),
        ["DMA.GET", "dead", "7", "4096", "64", "key", "0"]
    );
}

#[test]
fn an_argumentless_command_is_just_its_name() {
    assert_eq!(args(&hello_command()), ["DMA.HELLO"]);
    assert_eq!(args(&info_command()), ["DMA.INFO"]);
}

#[test]
fn protocol_parses_a_missing_key_as_none() {
    assert_eq!(parse_receipt(Value::Nil).unwrap(), None);
}

#[test]
fn protocol_parses_a_bare_byte_count() {
    let receipt = parse_receipt(Value::Int(1024)).unwrap().unwrap();
    assert_eq!(receipt.bytes_written, 1024);
    assert_eq!(receipt.checksum, None);
}

#[test]
fn protocol_parses_a_byte_count_and_checksum() {
    let reply = Value::Array(vec![Value::Int(1024), Value::Int(0xE306_9283)]);
    let receipt = parse_receipt(reply).unwrap().unwrap();
    assert_eq!(receipt.bytes_written, 1024);
    assert_eq!(receipt.checksum, Some(0xE306_9283));
}

#[test]
fn rejects_a_negative_byte_count() {
    assert!(parse_receipt(Value::Int(-1)).is_err());
}

#[test]
fn protocol_rejects_a_malformed_pair() {
    let reply = Value::Array(vec![Value::Int(1), Value::Int(2), Value::Int(3)]);
    assert!(parse_receipt(reply).is_err());
}

#[test]
fn protocol_parses_every_hello_address() {
    let reply = Value::Array(vec![
        Value::BulkString(b"dead".to_vec().into()),
        Value::BulkString(b"beef".to_vec().into()),
    ]);
    assert_eq!(
        parse_hello(reply).unwrap(),
        [vec![0xde, 0xad], vec![0xbe, 0xef]]
    );
}

#[test]
fn protocol_rejects_an_empty_hello() {
    assert!(parse_hello(Value::Array(vec![])).is_err());
}

#[test]
fn dma_errors_carry_their_kind_and_message() {
    let too_large: RequestError = DmaError::PayloadTooLarge {
        value_bytes: 1_048_576,
        capacity: 65_536,
    }
    .into();
    assert_eq!(too_large.kind(), ErrorKind::UserOperationError);
    assert!(too_large.message().contains("1048576"));

    let desync: RequestError = DmaError::Protocol("bad reply".into()).into();
    assert_eq!(desync.kind(), ErrorKind::ProtocolDesync);

    let fabric: RequestError = DmaError::Fabric {
        operation: "fi_mr_reg",
        message: "Cannot allocate memory".into(),
        errno: Some(-12),
    }
    .into();
    assert_eq!(fabric.kind(), ErrorKind::IoError);
    assert!(fabric.message().contains("errno -12"));
}

/// Every failure has one kind and one wording.
#[test]
fn every_dma_error_is_worded_and_classified() {
    let cases = [
        (
            DmaError::Protocol("odd".to_string()),
            ErrorKind::ProtocolDesync,
            "dma protocol error: odd",
        ),
        (
            DmaError::ByteCountMismatch { expected: 4, actual: 3 },
            ErrorKind::ClientError,
            "dma transferred 3 bytes, expected 4",
        ),
        (
            DmaError::ChecksumMismatch { expected: 0xabc, actual: 0xE306_9283 },
            ErrorKind::ClientError,
            "dma checksum mismatch: expected 0x00000abc, got 0xe3069283",
        ),
        (
            DmaError::PayloadTooLarge { value_bytes: 9, capacity: 8 },
            ErrorKind::UserOperationError,
            "value of 9 bytes exceeds the 8 byte registered window",
        ),
        (
            DmaError::Fabric { operation: "fi_close", message: "busy".to_string(), errno: None },
            ErrorKind::IoError,
            "fabric error in fi_close: busy",
        ),
        (
            DmaError::Configuration("no card".to_string()),
            ErrorKind::InvalidClientConfig,
            "fabric configuration error: no card",
        ),
    ];
    for (error, kind, message) in cases {
        assert_eq!(error.message(), message);
        let raised = RequestError::from(error.clone());
        assert_eq!(raised.kind(), kind);
        assert_eq!(
            raised.message(),
            format!("DMA error - {}: {message}", kind.name())
        );
    }
}

#[test]
fn an_unexpected_reply_is_shown_as_it_came() {
    assert_eq!(
        parse_receipt(Value::Okay).unwrap_err(),
        DmaError::Protocol(format!("unexpected reply {:?}", Value::Okay))
    );
    assert_eq!(
        parse_receipt(Value::Array(vec![Value::Int(1), Value::Nil])).unwrap_err(),
        DmaError::Protocol("expected [bytes, checksum], got 2 elements".to_string())
    );
}

/// Only an array is read as a pair: neither a set nor a nested array is.
#[test]
fn only_an_array_of_integers_is_a_pair() {
    let pair = vec![Value::Int(1), Value::Int(2)];
    assert!(parse_receipt(Value::Array(pair.clone())).is_ok());
    assert_eq!(
        parse_receipt(Value::Set(pair.clone())).unwrap_err(),
        DmaError::Protocol(format!("unexpected reply {:?}", Value::Set(pair.clone())))
    );
    assert!(parse_receipt(Value::Array(vec![Value::Array(pair), Value::Int(2)])).is_err());
    for other in [
        Value::BulkString(b"8".to_vec()),
        Value::SimpleString("8".to_string()),
        Value::Boolean(true),
        Value::Double(8.0),
        Value::Map(Vec::new()),
    ] {
        let shown = format!("unexpected reply {other:?}");
        assert_eq!(parse_receipt(other).unwrap_err(), DmaError::Protocol(shown));
    }
}

/// A reply that a client has destructured itself is read by the same rules.
#[test]
fn a_destructured_reply_is_read_alike() {
    let receipt = receipt_from(Reply::Array(vec![ReplyItem::Int(3), ReplyItem::Int(9)]), String::new());
    assert_eq!(receipt.unwrap().unwrap().checksum, Some(9));
    assert_eq!(
        receipt_from(Reply::Array(vec![ReplyItem::Other, ReplyItem::Int(9)]), String::new()).unwrap_err(),
        DmaError::Protocol("expected [bytes, checksum], got 2 elements".to_string())
    );
    assert_eq!(
        receipt_from(Reply::Other, "that".to_string()).unwrap_err(),
        DmaError::Protocol("unexpected reply that".to_string())
    );
    assert_eq!(
        hello_from(Ok(vec!["00ff".to_string()])).unwrap(),
        [vec![0x00, 0xff]]
    );
    assert_eq!(
        hello_from(Err("no list".to_string())).unwrap_err(),
        DmaError::Protocol("dma.hello: no list".to_string())
    );
}

#[test]
fn a_hello_that_is_not_hexadecimal_is_refused() {
    for address in ["abc", "zz"] {
        let reply = Value::Array(vec![Value::BulkString(address.as_bytes().to_vec())]);
        assert_eq!(
            parse_hello(reply).unwrap_err(),
            DmaError::Protocol("invalid hex in address".to_string())
        );
    }
    let error = parse_hello(Value::Int(3)).unwrap_err();
    assert!(error.message().starts_with("dma protocol error: dma.hello: "), "{error:?}");
    assert_eq!(
        parse_hello(Value::Nil).unwrap_err(),
        DmaError::Protocol("dma.hello returned no addresses".to_string())
    );
}

#[test]
fn addresses_are_encoded_and_decoded() {
    assert_eq!(encode_hex(&[0x00, 0x9f]), "009f");
    assert_eq!(decode_hex(b"009F").unwrap(), [0x00, 0x9f]);
    assert_eq!(decode_hex(b"0").unwrap_err(), AdvertisementError::Hex);
    let error = DmaError::from(AdvertisementError::Hex);
    assert_eq!(error, DmaError::Protocol("invalid hex in address".to_string()));
}
