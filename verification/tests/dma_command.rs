//! The `DMA.*` vocabulary: wire layout and receipts.

use glide_fabric::dma::advertisement::Advertisement;
use glide_fabric::dma::command::{get, hello, info, DmaCommand, DmaGetOptions, DmaSetOptions, TransferReply};
use glide_fabric::dma::command;
use glide_fabric::dma::error::DmaError;

fn advertisement() -> Advertisement {
    Advertisement {
        address: vec![0xde, 0xad],
        remote_key: 7,
        remote_address: 0x1000,
    }
}

fn arguments(command: &DmaCommand) -> Vec<String> {
    command
        .arguments()
        .iter()
        .map(|argument| String::from_utf8_lossy(argument).into_owned())
        .collect()
}

#[test]
fn set_lays_out_arguments_in_wire_order() {
    let command = command::set(&advertisement(), b"key", 64, &DmaSetOptions::default());
    assert_eq!(command.name(), "DMA.SET");
    assert_eq!(arguments(&command), ["dead", "7", "4096", "64", "key"]);
}

#[test]
fn get_lays_out_arguments_in_wire_order() {
    let command = get(&advertisement(), b"key", 64, &DmaGetOptions::default());
    assert_eq!(command.name(), "DMA.GET");
    assert_eq!(arguments(&command), ["dead", "7", "4096", "64", "key"]);
}

#[test]
fn set_appends_the_checksum_last() {
    let options = DmaSetOptions::default().with_checksum(0xabcd);
    let command = command::set(&advertisement(), b"key", 64, &options);
    assert_eq!(arguments(&command).last().unwrap(), "43981");
}

#[test]
fn get_appends_a_flag_only_when_a_checksum_is_wanted() {
    let plain = get(&advertisement(), b"key", 64, &DmaGetOptions::default());
    assert_eq!(plain.arguments().len(), 5);

    let wanted = get(
        &advertisement(),
        b"key",
        64,
        &DmaGetOptions::default().with_checksum(),
    );
    assert_eq!(wanted.arguments().len(), 6);
}

/// A key is bytes, not text, and must survive unaltered.
#[test]
fn a_key_is_carried_as_raw_bytes() {
    let command = command::set(
        &advertisement(),
        &[0x00, 0xff],
        1,
        &DmaSetOptions::default(),
    );
    assert_eq!(command.arguments().last().unwrap().as_slice(), [0x00, 0xff]);
}

#[test]
fn a_missing_key_has_no_receipt() {
    assert_eq!(TransferReply::Missing.receipt().unwrap(), None);
}

#[test]
fn a_byte_count_becomes_a_receipt() {
    let receipt = TransferReply::Bytes(1024).receipt().unwrap().unwrap();
    assert_eq!(receipt.bytes_written, 1024);
    assert_eq!(receipt.checksum, None);
}

#[test]
fn a_checksum_rides_along_with_the_byte_count() {
    let reply = TransferReply::BytesAndChecksum {
        bytes: 1024,
        checksum: 0xE306_9283,
    };
    let receipt = reply.receipt().unwrap().unwrap();
    assert_eq!(receipt.bytes_written, 1024);
    assert_eq!(receipt.checksum, Some(0xE306_9283));
}

/// The server cannot have moved a negative number of bytes, so this is a corrupt
/// reply rather than a huge one.
#[test]
fn a_negative_byte_count_is_rejected() {
    assert!(TransferReply::Bytes(-1).receipt().is_err());
}

#[test]
fn a_checksum_outside_u32_is_rejected() {
    let reply = TransferReply::BytesAndChecksum {
        bytes: 1,
        checksum: i64::from(u32::MAX) + 1,
    };
    assert!(reply.receipt().is_err());
}

#[test]
fn handshake_commands_carry_no_arguments() {
    assert_eq!(hello().name(), "DMA.HELLO");
    assert!(hello().arguments().is_empty());
    assert_eq!(info().name(), "DMA.INFO");
    assert!(info().arguments().is_empty());
}

/// A bad checksum is reported before a bad byte count, and each number is shown.
#[test]
fn a_refused_receipt_shows_the_number() {
    let both = TransferReply::BytesAndChecksum {
        bytes: -5,
        checksum: -7,
    };
    assert_eq!(
        both.receipt().unwrap_err(),
        DmaError::Protocol("checksum out of range -7".to_string())
    );
    let bytes = TransferReply::BytesAndChecksum {
        bytes: i64::MIN,
        checksum: i64::from(u32::MAX),
    };
    assert_eq!(
        bytes.receipt().unwrap_err(),
        DmaError::Protocol("negative byte count -9223372036854775808".to_string())
    );
}

#[test]
fn options_say_what_was_asked() {
    assert!(!DmaGetOptions::default().checksum_requested());
    assert!(DmaGetOptions::default().with_checksum().checksum_requested());
}

/// The largest numbers there are survive the trip through decimal text.
#[test]
fn extreme_numbers_are_laid_out_in_full() {
    let advertisement = Advertisement {
        address: Vec::new(),
        remote_key: u64::MAX,
        remote_address: 0,
    };
    let options = DmaSetOptions::default().with_checksum(u32::MAX);
    let command = command::set(&advertisement, b"", 0, &options);
    assert_eq!(
        arguments(&command),
        ["", "18446744073709551615", "0", "0", "", "4294967295"]
    );
}
