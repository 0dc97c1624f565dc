//! Region references, handshakes and RDMA errors.

use glide_fabric::rdma::error::RdmaError;
use glide_fabric::rdma::region_ref::{decode_hex, encode_hex, RegionRef, RegionRefError};
use glide_fabric::rdma::session::Handshake;

#[test]
fn region_ref_errors_become_protocol_errors() {
    let error: RdmaError = RegionRefError::Arity.into();
    assert!(matches!(error, RdmaError::Protocol(_)));
}

#[test]
fn fabric_errors_render_errno_only_when_present() {
    let with_errno = RdmaError::Fabric {
        operation: "fi_mr_reg",
        message: "Cannot allocate memory".to_string(),
        errno: Some(-12),
    };
    assert!(with_errno.message().contains("errno -12"));

    let without = RdmaError::Fabric {
        operation: "fi_getinfo",
        message: "No data available".to_string(),
        errno: None,
    };
    assert!(!without.message().contains("errno"));
}

#[test]
fn round_trips_through_args() {
    let region_ref = RegionRef {
        address: vec![0x01, 0x00, 0x7f, 0xff, 0xab],
        remote_key: 42,
        remote_address: 0x7f00_1234_5678,
    };
    let args = region_ref.to_args();
    let fields: Vec<&[u8]> = args.iter().map(|arg| arg.as_bytes()).collect();
    assert_eq!(
        RegionRef::from_fields(region_ref.address.clone(), &fields).unwrap(),
        region_ref
    );
}

#[test]
fn rejects_a_short_region_ref() {
    let fields: Vec<&[u8]> = vec![b"1"];
    assert!(RegionRef::from_fields(Vec::new(), &fields).is_err());
}

#[test]
fn hex_round_trips() {
    let bytes = vec![0x00, 0x0f, 0xf0, 0xff, 0xab, 0xcd];
    assert_eq!(encode_hex(&bytes), "000ff0ffabcd");
    assert_eq!(decode_hex(b"000ff0ffabcd").unwrap(), bytes);
}

#[test]
fn rejects_odd_length_and_non_hex() {
    assert!(decode_hex(b"abc").is_err());
    assert!(decode_hex(b"zz").is_err());
}

#[test]
fn rejects_a_non_numeric_rkey() {
    let fields: Vec<&[u8]> = vec![b"not-a-number", b"0"];
    assert!(RegionRef::from_fields(Vec::new(), &fields).is_err());
}

#[test]
fn a_handshake_carries_every_address_the_node_may_transfer_from() {
    let handshake = Handshake {
        peers: vec![vec![1, 2, 3]],
    };
    assert_eq!(handshake.peers, vec![vec![1, 2, 3]]);
}

#[test]
fn each_malformed_field_has_its_error() {
    let parse = |fields: &[&[u8]]| RegionRef::from_fields(vec![9], fields);
    assert_eq!(parse(&[b"1", b"2", b"3"]).unwrap_err(), RegionRefError::Arity);
    assert_eq!(parse(&[b"1", b"-2"]).unwrap_err(), RegionRefError::Integer);
    assert_eq!(parse(&[b"", b"2"]).unwrap_err(), RegionRefError::Integer);
    assert_eq!(
        parse(&[b"18446744073709551616", b"0"]).unwrap_err(),
        RegionRefError::Integer
    );
    assert_eq!(parse(&[b"1", b"\xff"]).unwrap_err(), RegionRefError::Integer);
    assert_eq!(
        parse(&[b"+18446744073709551615", b"007"]).unwrap(),
        RegionRef {
            address: vec![9],
            remote_key: u64::MAX,
            remote_address: 7,
        }
    );
    assert_eq!(RegionRef::ARG_COUNT, 2);
}

#[test]
fn every_rdma_error_is_worded() {
    let cases = [
        (RdmaError::Protocol("odd".to_string()), "rdma protocol error: odd"),
        (
            RdmaError::ByteCountMismatch { expected: 4, actual: 3 },
            "rdma transferred 3 bytes, expected 4",
        ),
        (
            RdmaError::ChecksumMismatch { expected: 0, actual: u32::MAX },
            "rdma checksum mismatch: expected 0x00000000, got 0xffffffff",
        ),
        (
            RdmaError::PayloadTooLarge { value_bytes: 9, capacity: 8 },
            "value of 9 bytes exceeds the 8 byte registered window",
        ),
        (
            RdmaError::Fabric { operation: "fi_close", message: "busy".to_string(), errno: Some(-16) },
            "fabric error in fi_close: busy (errno -16)",
        ),
        (RdmaError::Configuration("no card".to_string()), "fabric configuration error: no card"),
        (
            RdmaError::LibfabricUnavailable { detail: "too old".to_string() },
            "libfabric unavailable: too old",
        ),
    ];
    for (error, message) in cases {
        assert_eq!(error.message(), message);
        assert_eq!(error.clone(), error);
    }
    let cases = [
        (RegionRefError::Arity, "expected: rkey remote-address"),
        (RegionRefError::Hex, "invalid hex in address"),
        (RegionRefError::Integer, "invalid integer in region_ref"),
    ];
    for (error, message) in cases {
        assert_eq!(error.message(), message);
        assert_eq!(RdmaError::from(error), RdmaError::Protocol(message.to_string()));
    }
}

/// Encoding what was decoded gives the text back in small letters.
#[test]
fn hex_is_written_in_small_letters() {
    assert_eq!(encode_hex(&decode_hex(b"00fFAb").unwrap()), "00ffab");
    assert_eq!(encode_hex(&[]), "");
    assert_eq!(decode_hex(b"").unwrap(), Vec::<u8>::new());
}
