//! Registered memory, its windows, and the client side of setting up a transfer.

use std::cell::Cell;
use std::sync::Arc;

use glide_fabric::checksum::checksum;
use glide_fabric::config::{FabricConfig, Provider};
use glide_fabric::dma::advertisement::encode_hex;
use glide_fabric::dma::buffer::DmaBuffer;
use glide_fabric::dma::command::DmaSetOptions;
use glide_fabric::dma::error::DmaError;
use glide_fabric::dma::fabric::{discover_domains, Access, DmaFabric, LocalEndpoint, Registration};
use glide_fabric::dma::protocol::set_command;

fn endpoint(address: Vec<u8>) -> Result<LocalEndpoint, DmaError> {
    Ok(LocalEndpoint {
        address,
        uses_virtual_addressing: false,
    })
}

fn fabric() -> DmaFabric {
    fabric_at(0)
}

/// Every endpoint has an address of its own.
fn fabric_at(number: u8) -> DmaFabric {
    DmaFabric::open(&FabricConfig::new(Provider::Tcp), |_| endpoint(vec![127, 0, 0, number]))
        .expect("tcp should open")
}

fn pin(bytes: &[u8], _access: Access) -> Result<Registration, DmaError> {
    Ok(Registration {
        remote_key: 42,
        virtual_address: bytes.as_ptr() as u64,
    })
}

fn register(memory: Vec<u8>) -> DmaBuffer {
    fabric().register(memory, pin).expect("registration failed")
}

#[test]
fn a_window_advances_the_remote_address_by_its_offset() {
    let buffer = register(vec![0u8; 4096]);
    let base = buffer.advertisement().remote_address;
    let window = buffer.slice(1024, 256).expect("window should fit");
    assert_eq!(window.length(), 256);
    assert_eq!(window.advertisement().remote_address, base + 1024);
    // The key covers the whole region, so only the address moves.
    assert_eq!(
        window.advertisement().remote_key,
        buffer.advertisement().remote_key
    );
}

#[test]
fn a_window_past_the_end_is_refused() {
    let buffer = register(vec![0u8; 1024]);
    assert!(buffer.slice(0, 1025).is_none());
    assert!(buffer.slice(1024, 1).is_none());
    assert!(buffer.slice(1024, 0).is_some(), "empty window at the end");
    assert!(buffer.slice(usize::MAX, 1).is_none(), "offset overflow");
}

#[test]
fn overlapping_windows_both_validate() {
    let buffer = register(vec![0u8; 4096]);
    assert!(buffer.slice(0, 2048).is_some());
    assert!(buffer.slice(1024, 2048).is_some());
}

#[test]
fn owned_memory_is_readable_and_writable() {
    let mut buffer = register(vec![0u8; 64]);
    assert_eq!(buffer.copy_from(b"hello"), Some(5));
    assert_eq!(&buffer.as_host().unwrap()[..5], b"hello");
}

#[test]
fn staging_more_than_fits_writes_nothing() {
    let mut buffer = register(vec![0u8; 4]);
    assert_eq!(buffer.copy_from(b"too long"), None);
    assert_eq!(buffer.as_host().unwrap(), &[0u8; 4]);
}

#[test]
fn shared_memory_has_no_writable_mapping() {
    let mut buffer = fabric()
        .register_shared(Arc::new(vec![1u8; 128]), pin)
        .unwrap();
    assert!(buffer.as_host_mut().is_none());
    assert!(buffer.copy_from(b"nope").is_none());
}

#[test]
fn the_host_reports_its_domains() {
    let domains = discover_domains(&FabricConfig::new(Provider::Tcp), |_| {
        Ok(vec!["lo".to_string(), "eth0".to_string(), "lo".to_string()])
    })
    .expect("discovery failed");
    assert!(!domains.is_empty(), "tcp reported no domains");
    assert_eq!(domains, ["lo", "eth0"]);
}

/// An interface that does not exist still queries: filtering happens when the
/// endpoint is opened, not here.
#[test]
fn discovery_ignores_the_interface_hint() {
    let config = FabricConfig::new(Provider::Tcp).with_interface("definitely-not-a-card");
    assert!(discover_domains(&config, |_| Ok(vec!["lo".to_string()])).is_ok());
}

#[test]
fn a_failed_discovery_reports_its_own_error() {
    let failure = DmaError::Fabric {
        operation: "fi_getinfo",
        message: "No data available".to_string(),
        errno: Some(-61),
    };
    let reported = failure.clone();
    let domains = discover_domains(&FabricConfig::new(Provider::Tcp), |_| Err(failure));
    assert_eq!(domains.unwrap_err(), reported);
}

#[test]
fn clones_share_the_endpoint() {
    let first = fabric();
    let second = first.clone();
    assert_eq!(first.local_address(), second.local_address());
}

#[test]
fn registers_a_buffer_and_advertises_it() {
    let fabric = fabric();
    let buffer = fabric
        .register(vec![0u8; 4096], pin)
        .expect("registration failed");
    assert_eq!(buffer.capacity(), 4096);
    assert_eq!(buffer.advertisement().address, fabric.local_address());
    assert!(
        !buffer.advertisement().address.is_empty(),
        "an enabled endpoint has an address to advertise"
    );
}

/// tcp addresses by offset, so the region starts at 0 rather than at its virtual
/// address. Getting this backwards is the silent-corruption case.
#[test]
fn offset_addressing_advertises_zero_for_the_region_start() {
    let virtually = DmaFabric::open(&FabricConfig::new(Provider::EfaDirect), |_| {
        Ok(LocalEndpoint {
            address: vec![1],
            uses_virtual_addressing: true,
        })
    })
    .unwrap();
    for fabric in [fabric(), virtually] {
        let buffer = fabric.register(vec![0u8; 4096], pin).unwrap();
        if fabric.uses_virtual_addressing() {
            assert_ne!(buffer.advertisement().remote_address, 0);
        } else {
            assert_eq!(buffer.advertisement().remote_address, 0);
        }
    }
}

#[test]
fn registering_nothing_is_a_configuration_error() {
    assert!(fabric().register(Vec::new(), pin).is_err());
    assert!(fabric().register_shared(Arc::new(Vec::new()), pin).is_err());
    let refused = fabric().register(Vec::new(), |_, _| unreachable!()).err().unwrap();
    assert_eq!(
        refused,
        DmaError::Configuration("cannot register 0 bytes".to_string())
    );
}

/// A shared source can be registered on several fabrics at once.
#[test]
fn one_allocation_registers_on_several_fabrics() {
    let shared: Arc<Vec<u8>> = Arc::new(vec![7u8; 2048]);
    let first = fabric_at(1).register_shared(shared.clone(), pin).unwrap();
    let second = fabric_at(2).register_shared(shared.clone(), pin).unwrap();
    assert_eq!(first.capacity(), 2048);
    assert_eq!(second.capacity(), 2048);
    // Distinct endpoints, so distinct advertised addresses.
    assert_ne!(
        first.advertisement().address,
        second.advertisement().address
    );
}

/// tcp emulates remote access in software, so a transfer only progresses while the
/// target polls. efa-direct needs no driver and would return None.
#[test]
fn tcp_drives_progress() {
    assert!(fabric().drive_progress(|| ()).is_some());
    let efa = DmaFabric::open(&FabricConfig::new(Provider::EfaDirect), |_| endpoint(vec![1])).unwrap();
    assert!(efa.drive_progress(|| ()).is_none());
}

#[test]
fn a_buffer_outlives_the_fabric_handle_it_came_from() {
    let buffer = fabric().register(vec![0u8; 1024], pin).unwrap();
    assert_eq!(buffer.capacity(), 1024);
    drop(buffer);
}

/// The whole client-side sequence short of the transfer itself.
#[test]
fn a_registered_buffer_produces_a_sendable_set_command() {
    let fabric = fabric();

    let mut buffer = fabric
        .register(vec![0u8; 64 * 1024], pin)
        .expect("registration failed");

    let payload = b"the quick brown fox";
    assert_eq!(buffer.copy_from(payload), Some(payload.len()));

    let window = buffer.slice(0, payload.len()).expect("window should fit");
    let command = set_command(
        window.advertisement(),
        b"chunk:abc",
        window.length(),
        &DmaSetOptions::default().with_checksum(checksum(payload)),
    );

    let args: Vec<Vec<u8>> = command
        .args_iter()
        .filter_map(|arg| match arg {
            redis::Arg::Simple(bytes) => Some(bytes.to_vec()),
            redis::Arg::Cursor => None,
        })
        .collect();

    assert_eq!(args[0], b"DMA.SET");
    assert_eq!(args[1], encode_hex(fabric.local_address()).into_bytes());
    assert_eq!(args[4], payload.len().to_string().into_bytes());
    assert_eq!(args[5], b"chunk:abc");
}

/// A refused pin is reported as it came, and a window near the last address that
/// would run past it is refused.
#[test]
fn the_last_address_bounds_a_window() {
    let failure = fabric().register(vec![0u8; 8], |_, _| Err(DmaError::Configuration("full".to_string())));
    assert_eq!(failure.err().unwrap(), DmaError::Configuration("full".to_string()));

    let virtually = DmaFabric::open(&FabricConfig::new(Provider::EfaDirect), |_| {
        Ok(LocalEndpoint {
            address: vec![1],
            uses_virtual_addressing: true,
        })
    })
    .unwrap();
    let buffer = virtually
        .register(vec![0u8; 8], |_, _| {
            Ok(Registration {
                remote_key: 1,
                virtual_address: u64::MAX - 1,
            })
        })
        .unwrap();
    assert!(buffer.slice(1, 1).is_some());
    assert!(buffer.slice(2, 1).is_none());
}

/// Staging writes the front alone, and what is written through the mapping is read.
#[test]
fn staging_leaves_the_rest_alone() {
    let mut buffer = register(vec![9u8; 4]);
    assert_eq!(buffer.copy_from(&[1, 2]), Some(2));
    assert_eq!(buffer.as_host().unwrap(), &[1, 2, 9, 9]);
    buffer.as_host_mut().unwrap()[3] = 7;
    assert_eq!(buffer.as_host().unwrap(), &[1, 2, 9, 7]);
    assert_eq!(buffer.copy_from(&[]), Some(0));
    assert_eq!(buffer.backing(), "owned");
    assert_eq!(buffer.fabric().local_address(), &[127, 0, 0, 0]);
    let shared = fabric().register_shared(Arc::new(vec![1]), pin).unwrap();
    assert_eq!(shared.backing(), "shared");
}

#[test]
fn a_peer_is_handed_to_the_address_vector() {
    let inserted = fabric().insert_peer(&[1, 2], &|address: &[u8]| {
        assert_eq!(address, &[1, 2]);
        Ok(())
    });
    assert!(inserted.is_ok());
}

/// A shared source is pinned for reading alone, so the server cannot write it either.
#[test]
fn each_registration_asks_for_its_access() {
    let asked = Cell::new(None);
    let note = |bytes: &[u8], access: Access| {
        asked.set(Some((bytes.len(), access)));
        pin(bytes, access)
    };
    fabric().register(vec![0u8; 8], note).unwrap();
    assert_eq!(asked.get(), Some((8, Access::Remote)));
    fabric().register_shared(Arc::new(vec![0u8; 4]), note).unwrap();
    assert_eq!(asked.get(), Some((4, Access::Source)));
}
