//! What callers in other languages see.

use glide_fabric::ffi::{
    rdma_available, rdma_checksum, rdma_get, rdma_region_capacity, rdma_set, rdma_usable,
    register_region, require_sync_client, ClientType, RdmaRegion, RdmaRegistration, RdmaResult,
    RequestErrorType, Support, TransferFailure,
};
use glide_fabric::rdma::receipt::ReadReceipt;

const SYNC: Option<ClientType> = Some(ClientType::SyncClient);
const ASYNC: Option<ClientType> = Some(ClientType::AsyncClient);

/// Register memory with a client that takes whatever it is given.
fn register(
    support: Support,
    client: Option<ClientType>,
    memory: Option<&mut [u8]>,
    length: usize,
) -> RdmaRegistration<&'static str> {
    register_region(support, client, memory, length, |_memory, length| Ok(("buffer", length)))
}

/// The message of a registration. Asserts no region came back, which a failed
/// registration must guarantee.
fn take_registration_error(registration: RdmaRegistration<&'static str>) -> Option<String> {
    assert!(
        registration.region.is_none(),
        "a failed registration must carry no region"
    );
    registration.error_message
}

/// A transfer that must not be started.
fn get_refused(
    support: Support,
    client: Option<ClientType>,
    key: Option<&[u8]>,
    region: Option<&mut RdmaRegion<&'static str>>,
) -> Option<String> {
    rdma_get(support, client, key, region, 0, 3, |_, _, _, _| unreachable!()).error_message
}

fn set_refused(
    support: Support,
    client: Option<ClientType>,
    key: Option<&[u8]>,
    region: Option<&mut RdmaRegion<&'static str>>,
) -> Option<String> {
    rdma_set(support, client, key, region, 0, 3, |_, _, _, _| unreachable!()).error_message
}

fn region() -> RdmaRegion<&'static str> {
    RdmaRegion::new("buffer", 64)
}

#[test]
fn registering_without_a_client_is_refused() {
    let mut memory = [0u8; 64];
    let error = take_registration_error(register(
        Support::CompiledIn,
        None,
        Some(&mut memory),
        64,
    ));
    assert_eq!(
        error.as_deref(),
        Some("cannot register a region without a client")
    );
}

#[test]
fn registering_a_null_pointer_is_refused() {
    let error = take_registration_error(register(Support::CompiledIn, SYNC, None, 64));
    assert_eq!(error.as_deref(), Some("cannot register a null pointer"));
}

#[test]
fn registering_an_empty_region_is_refused() {
    let mut memory = [0u8; 64];
    let error = take_registration_error(register(
        Support::CompiledIn,
        SYNC,
        Some(&mut memory),
        0,
    ));
    assert_eq!(error.as_deref(), Some("cannot register 0 bytes"));
}

#[test]
fn a_transfer_without_a_client_is_refused() {
    let key = b"key";
    let mut region = region();
    let error = get_refused(Support::CompiledIn, None, Some(key), Some(&mut region));
    assert_eq!(error.as_deref(), Some("cannot transfer without a client"));

    let error = set_refused(Support::CompiledIn, None, Some(key), Some(&mut region));
    assert_eq!(error.as_deref(), Some("cannot transfer without a client"));
}

#[test]
fn a_transfer_without_a_key_is_refused() {
    let mut region = region();
    let error = get_refused(Support::CompiledIn, SYNC, None, Some(&mut region));
    assert_eq!(error.as_deref(), Some("cannot transfer without a key"));

    let error = set_refused(Support::CompiledIn, SYNC, None, Some(&mut region));
    assert_eq!(error.as_deref(), Some("cannot transfer without a key"));
}

#[test]
fn a_transfer_without_a_region_is_refused() {
    let key = b"key";
    let error = get_refused(Support::CompiledIn, SYNC, Some(key), None);
    assert_eq!(
        error.as_deref(),
        Some("cannot transfer without a registered region")
    );

    let error = set_refused(Support::CompiledIn, SYNC, Some(key), None);
    assert_eq!(
        error.as_deref(),
        Some("cannot transfer without a registered region")
    );
}

fn checksum_of(support: Support, data: &[u8]) -> Option<u32> {
    let mut out = 0u32;
    rdma_checksum(support, Some(data), data.len(), Some(&mut out)).then_some(out)
}

#[test]
fn a_checksum_matches_the_known_crc32c_vectors() {
    assert_eq!(checksum_of(Support::CompiledIn, b""), Some(0x0000_0000));
    assert_eq!(checksum_of(Support::CompiledIn, b"123456789"), Some(0xE306_9283));
}

#[test]
fn a_checksum_of_nothing_is_accepted_through_a_null_pointer() {
    // An empty Python buffer can arrive as a null pointer, and zero bytes
    // still have a defined checksum.
    let mut out = 0xFFFF_FFFFu32;
    assert!(rdma_checksum(Support::CompiledIn, None, 0, Some(&mut out)));
    assert_eq!(out, 0x0000_0000);
}

#[test]
fn a_checksum_is_unavailable_without_rdma() {
    assert_eq!(checksum_of(Support::Absent, b"123456789"), None);
}

#[test]
fn a_checksum_refuses_arguments_that_describe_no_bytes() {
    let mut out = 7u32;
    // A null pointer with a non-zero length is a caller mistake, not an
    // empty buffer.
    assert!(!rdma_checksum(Support::CompiledIn, None, 8, Some(&mut out)));
    assert!(!rdma_checksum(Support::CompiledIn, Some(b"abc"), 3, None));
    assert_eq!(out, 7, "a refused call must not write through `out`");
}

#[test]
fn a_null_region_has_no_capacity() {
    assert_eq!(rdma_region_capacity::<()>(Support::CompiledIn, None), 0);
    assert_eq!(rdma_region_capacity(Support::CompiledIn, Some(&region())), 64);
    assert_eq!(rdma_region_capacity(Support::Absent, Some(&region())), 0);
}

#[test]
fn a_build_without_rdma_says_so() {
    let mut memory = [0u8; 64];
    let error = take_registration_error(register(Support::Absent, SYNC, Some(&mut memory), 64))
        .expect("registration must fail without the feature");
    assert!(
        error.contains("no RDMA support compiled in"),
        "unexpected message: {error}"
    );

    let key = b"key";
    let error = get_refused(Support::Absent, SYNC, Some(key), Some(&mut region()))
        .expect("a transfer must fail without the feature");
    assert!(
        error.contains("no RDMA support compiled in"),
        "unexpected message: {error}"
    );
    assert!(!rdma_available(Support::Absent));
    assert!(!rdma_usable(Support::Absent, || unreachable!(), || unreachable!()));
    assert!(rdma_available(Support::CompiledIn));
}

/// Usable takes libfabric and fabric hardware both, and the hardware is asked for last.
#[test]
fn a_usable_machine_has_libfabric_and_hardware() {
    assert!(rdma_usable(Support::CompiledIn, || true, || true));
    assert!(!rdma_usable(Support::CompiledIn, || true, || false));
    assert!(!rdma_usable(Support::CompiledIn, || false, || unreachable!()));
}

/// Exactly one field of a registration is set.
#[test]
fn a_registration_carries_a_region_or_a_message() {
    let mut memory = [0u8; 64];
    let registered = register(Support::CompiledIn, SYNC, Some(&mut memory), 64);
    assert!(registered.error_message.is_none());
    assert_eq!(registered.region.unwrap().capacity(), 64);

    let refused = register(Support::CompiledIn, ASYNC, Some(&mut memory), 64);
    assert_eq!(
        take_registration_error(refused).as_deref(),
        Some("RDMA is only available on synchronous clients; this client was created as asynchronous")
    );
    assert!(require_sync_client(ClientType::SyncClient).is_ok());

    let failed: RdmaRegistration<&'static str> =
        register_region(Support::CompiledIn, SYNC, Some(()), 1, |_, _| Err("no card".to_string()));
    assert_eq!(take_registration_error(failed).as_deref(), Some("no card"));
}

/// A transfer gets the key, the buffer and the window, and what it hands back stays.
#[test]
fn a_transfer_borrows_the_buffer() {
    let mut region = region();
    let result = rdma_get(Support::CompiledIn, SYNC, Some(b"key"), Some(&mut region), 8, 16, |key, buffer, offset, length| {
        assert_eq!((key, buffer, offset, length), (b"key".as_slice(), "buffer", 8, 16));
        (
            Some("again"),
            Ok(Some(ReadReceipt { bytes_written: 5, checksum: Some(9) })),
        )
    });
    assert_eq!(
        result,
        RdmaResult {
            error_message: None,
            error_type: RequestErrorType::Unspecified,
            found: true,
            bytes_written: 5,
            has_checksum: true,
            checksum: 9,
        }
    );
    let result = rdma_get(Support::CompiledIn, SYNC, Some(b"key"), Some(&mut region), 0, 1, |_, buffer, _, _| {
        assert_eq!(buffer, "again");
        (Some(buffer), Ok(None))
    });
    assert_eq!(result, RdmaResult::missing());
    let result = rdma_set(Support::CompiledIn, SYNC, Some(b"key"), Some(&mut region), 0, 1, |_, buffer, _, _| {
        (Some(buffer), Ok(()))
    });
    assert_eq!(result, RdmaResult::stored());
}

/// A buffer that is not handed back is lost: every later transfer is refused.
#[test]
fn a_lost_region_is_refused() {
    let mut region = region();
    let result = rdma_set(Support::CompiledIn, SYNC, Some(b"key"), Some(&mut region), 0, 1, |_, _, _, _| {
        (
            None,
            Err(TransferFailure {
                message: "cancelled".to_string(),
                error_type: RequestErrorType::Disconnect,
            }),
        )
    });
    assert_eq!(result, RdmaResult::failed("cancelled".to_string(), RequestErrorType::Disconnect));
    for _ in 0..2 {
        assert_eq!(
            get_refused(Support::CompiledIn, SYNC, Some(b"key"), Some(&mut region)).as_deref(),
            Some("the region was lost when a cancelled transfer could not close it; free it and register the memory again")
        );
    }
    assert_eq!(region.capacity(), 64);
    assert!(region.take().is_err());
}

#[test]
fn a_message_with_a_nul_is_replaced() {
    assert_eq!(
        RdmaResult::rejected("a\0b".to_string()).error_message.as_deref(),
        Some("RDMA error message contained a NUL byte")
    );
    assert_eq!(RdmaResult::rejected(String::new()).error_message.as_deref(), Some(""));
    assert_eq!(
        RdmaResult::transferred(&ReadReceipt { bytes_written: 3, checksum: None }).checksum,
        0
    );
}

/// Argument mistakes are looked at before the client's type, and that before the region.
#[test]
fn refusals_have_an_order() {
    let mut lost = region();
    assert_eq!(lost.take().unwrap(), "buffer");
    let error = set_refused(Support::CompiledIn, ASYNC, Some(b"key"), Some(&mut lost)).unwrap();
    assert!(error.contains("synchronous"), "{error}");
    let error = set_refused(Support::Absent, None, None, None).unwrap();
    assert_eq!(error, "cannot transfer without a client");
}
