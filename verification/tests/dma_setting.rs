//! DMA settings, and whether a node's fabric suits this client's.

use std::cell::RefCell;

use glide_fabric::config::{FabricConfig, Provider};
use glide_fabric::dma::error::DmaError;
use glide_fabric::dma::fabric::{DmaFabric, LocalEndpoint};
use glide_fabric::dma::setting::{
    check_compatibility, insert_peers, open, validate, DmaInfo, DmaSetting, DmaUnavailable,
};

/// What a host with one card, `lo0`, answers.
fn endpoint(config: &FabricConfig) -> Result<LocalEndpoint, DmaError> {
    match config.interface() {
        Some(interface) if interface != "lo0" => Err(DmaError::Configuration(format!(
            "no domain named {interface}"
        ))),
        _ => Ok(LocalEndpoint {
            address: vec![127, 0, 0, 1],
            uses_virtual_addressing: false,
        }),
    }
}

fn tcp_fabric() -> DmaFabric {
    DmaFabric::open(&FabricConfig::new(Provider::Tcp), endpoint).expect("tcp opens")
}

/// What a node reports in lines of `<attribute>: <value>`.
fn info_reply(lines: &[&str]) -> DmaInfo {
    let value = |attribute: &str| {
        lines
            .iter()
            .filter_map(|line| line.split_once(": "))
            .find(|(name, _)| *name == attribute)
            .map(|(_, value)| value.to_string())
    };
    DmaInfo::new(
        value("provider"),
        value("uses_virtual_addressing").map(|value| value == "true"),
    )
}

#[test]
fn an_absent_setting_is_accepted() {
    assert!(validate(&DmaSetting::Absent, endpoint).is_ok());
}

#[test]
fn a_rejected_setting_fails_construction() {
    let setting = DmaSetting::Rejected(DmaUnavailable::NoProviderConfigured);
    assert_eq!(
        validate(&setting, endpoint).unwrap_err(),
        DmaUnavailable::NoProviderConfigured
    );
}

#[test]
fn dma_an_absent_setting_logs_nothing() {
    assert!(DmaSetting::Absent.log_summary().is_empty());
}

#[test]
fn a_configured_setting_logs_its_provider() {
    let setting = DmaSetting::Configured(FabricConfig::new(Provider::Tcp).with_interface("lo0"));
    let summary = setting.log_summary();
    assert!(summary.contains("Tcp"), "{summary}");
    assert!(summary.contains("lo0"), "{summary}");
}

#[test]
fn unset_fabric_options_are_omitted_from_the_log() {
    let setting = DmaSetting::Configured(FabricConfig::new(Provider::EfaDirect));
    let summary = setting.log_summary();
    assert!(!summary.contains("interface"), "{summary}");
    assert!(!summary.contains("bind"), "{summary}");
}

#[test]
fn dma_not_compiled_in_names_the_remedy() {
    let setting = DmaSetting::Rejected(DmaUnavailable::NotCompiledIn);
    let error = validate(&setting, endpoint).unwrap_err().message();
    assert!(error.contains("DMA-capable build"), "{error}");
}

#[test]
fn a_tcp_config_opens_a_fabric() {
    let setting = DmaSetting::Configured(FabricConfig::new(Provider::Tcp));
    assert!(validate(&setting, endpoint).is_ok());
}

#[test]
fn a_matching_server_passes_the_compatibility_check() {
    let fabric = tcp_fabric();
    let info = info_reply(&[
        "provider: tcp",
        &format!(
            "uses_virtual_addressing: {}",
            fabric.uses_virtual_addressing()
        ),
    ]);
    assert!(check_compatibility(&fabric, Provider::Tcp, "node:1", &info).is_ok());
}

#[test]
fn mismatched_providers_are_rejected() {
    let fabric = tcp_fabric();
    let info = info_reply(&["provider: efa-direct", "uses_virtual_addressing: true"]);

    let error = check_compatibility(&fabric, Provider::Tcp, "node:1", &info).unwrap_err();
    assert!(
        matches!(error, DmaUnavailable::ProviderMismatch { .. }),
        "{error:?}"
    );
    assert!(error.message().contains("efa-direct"), "{error:?}");
    assert!(error.message().contains("node:1"), "{error:?}");
}

#[test]
fn an_addressing_disagreement_is_rejected() {
    let fabric = tcp_fabric();
    let flipped = !fabric.uses_virtual_addressing();
    let info = info_reply(&[
        "provider: tcp",
        &format!("uses_virtual_addressing: {flipped}"),
    ]);

    let error = check_compatibility(&fabric, Provider::Tcp, "node:1", &info).unwrap_err();
    assert!(
        matches!(error, DmaUnavailable::AddressingMismatch { .. }),
        "{error:?}"
    );
}

/// "Could not verify" must mean "do not proceed".
#[test]
fn an_unreported_attribute_fails_closed() {
    let fabric = tcp_fabric();

    for reply in [
        info_reply(&["provider: tcp"]),
        info_reply(&["uses_virtual_addressing: false"]),
    ] {
        let error = check_compatibility(&fabric, Provider::Tcp, "node:1", &reply).unwrap_err();
        assert!(
            matches!(error, DmaUnavailable::MalformedHandshake { .. }),
            "{error:?}"
        );
    }
}

#[test]
fn a_fabric_failure_passes_through_with_its_detail() {
    let setting = DmaSetting::Configured(
        FabricConfig::new(Provider::Tcp).with_interface("definitely-not-a-card"),
    );
    let error = validate(&setting, endpoint).unwrap_err();
    assert!(matches!(error, DmaUnavailable::Fabric(_)), "{error:?}");
    assert!(
        error.message().contains("definitely-not-a-card"),
        "the requested interface must survive: {error:?}"
    );
}

#[test]
fn summaries_are_worded_exactly() {
    let config = FabricConfig::new(Provider::EfaDirect).with_interface("rdmap0").with_bind("10.0.0.1");
    assert_eq!(
        DmaSetting::Configured(config).log_summary(),
        "\nDMA: EfaDirect, interface: rdmap0, bind: 10.0.0.1"
    );
    assert_eq!(
        DmaSetting::Rejected(DmaUnavailable::NoProviderConfigured).log_summary(),
        "\nDMA: unavailable (DmaConfiguration requires a provider; none was set)"
    );
    assert!(!DmaSetting::default().is_requested());
    assert!(DmaSetting::Rejected(DmaUnavailable::NotCompiledIn).is_requested());
}

#[test]
fn every_reason_is_worded() {
    let node = "node:1".to_string();
    let cases = [
        (
            DmaUnavailable::ServerModuleMissing { node: node.clone() },
            "node node:1 does not have the valkey-dma module loaded",
        ),
        (
            DmaUnavailable::ProviderMismatch {
                client: "Tcp".to_string(),
                server: "efa-direct".to_string(),
                node: node.clone(),
            },
            "provider mismatch with node node:1: client Tcp, server efa-direct",
        ),
        (
            DmaUnavailable::AddressingMismatch {
                client_virt_addr: false,
                server_virt_addr: true,
                node: node.clone(),
            },
            "addressing mismatch with node node:1: client uses_virtual_addressing=false, server uses_virtual_addressing=true",
        ),
        (
            DmaUnavailable::MalformedHandshake { node: node.clone(), reason: "odd".to_string() },
            "node node:1 returned a malformed DMA.HELLO reply: odd",
        ),
        (
            DmaUnavailable::PeerInsertFailed {
                node,
                source: DmaError::Configuration("full".to_string()),
            },
            "failed to insert fabric addresses for node node:1: fabric configuration error: full",
        ),
    ];
    for (reason, message) in cases {
        assert_eq!(reason.message(), message);
        assert_eq!(reason.clone(), reason);
    }
}

/// The endpoint is asked for only where one was configured.
#[test]
fn an_unconfigured_setting_asks_for_no_endpoint() {
    assert!(matches!(open(&DmaSetting::Absent, |_| unreachable!()), Ok(None)));
    let opened = open(&DmaSetting::Configured(FabricConfig::new(Provider::Tcp)), endpoint);
    assert_eq!(opened.unwrap().unwrap().local_address(), &[127, 0, 0, 1]);
}

/// Every address is inserted, in order, until one is refused.
#[test]
fn the_first_refused_address_ends_it() {
    let asked: RefCell<Vec<Vec<u8>>> = RefCell::new(Vec::new());
    let insert = |address: &[u8]| {
        asked.borrow_mut().push(address.to_vec());
        if address == [2] {
            Err(DmaError::Configuration("full".to_string()))
        } else {
            Ok(())
        }
    };
    let addresses = [vec![1], vec![2], vec![3]];
    let refused = insert_peers(&tcp_fabric(), "node:1", &addresses, insert).unwrap_err();
    assert_eq!(
        refused,
        DmaUnavailable::PeerInsertFailed {
            node: "node:1".to_string(),
            source: DmaError::Configuration("full".to_string()),
        }
    );
    assert_eq!(asked.into_inner(), [vec![1], vec![2]]);
    assert!(insert_peers(&tcp_fabric(), "node:1", &addresses, |_| Ok(())).is_ok());
}
