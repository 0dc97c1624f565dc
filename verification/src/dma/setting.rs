//! What a connection request asks of DMA, and whether it can be honored.

use vstd::prelude::*;
use vstd::string::StringExecFns;

use crate::config::{push_config_summary, FabricConfig, Provider};
#[allow(unused_imports)]
use crate::config::{config_summary, FabricConfigView};
use crate::dma::error::DmaError;
#[allow(unused_imports)]
use crate::dma::error::DmaErrorView;
use crate::dma::fabric::{DmaFabric, LocalEndpoint};
#[allow(unused_imports)]
use crate::dma::fabric::{opened_fabric, DmaFabricView};
use crate::text::bool_text_of;
#[allow(unused_imports)]
use crate::text::{bool_text, holds, lemma_holds};

verus! {

/// What a connection request asked of DMA and whether it can be honored.
#[derive(Debug)]
pub enum DmaSetting {
    /// No DMA was requested. The zero-cost default.
    Absent,
    /// DMA was requested but cannot be honored, for this reason.
    Rejected(DmaUnavailable),
    /// DMA was requested and the configuration is usable.
    Configured(FabricConfig),
}

/// The mathematical form of a [`DmaSetting`].
pub enum DmaSettingView {
    Absent,
    Rejected(DmaUnavailableView),
    Configured(FabricConfigView),
}

impl View for DmaSetting {
    type V = DmaSettingView;

    open spec fn view(&self) -> DmaSettingView {
        match *self {
            DmaSetting::Absent => DmaSettingView::Absent,
            DmaSetting::Rejected(reason) => DmaSettingView::Rejected(reason@),
            DmaSetting::Configured(config) => DmaSettingView::Configured(config@),
        }
    }
}

/// The reason a requested DMA configuration cannot be honored.
#[derive(Debug, PartialEq, Eq)]
#[non_exhaustive]
pub enum DmaUnavailable {
    /// This build artifact has no DMA support compiled in but the configuration is valid.
    NotCompiledIn,
    /// No provider was named.
    NoProviderConfigured,
    /// A node did not recognise the DMA commands, so the server module is not
    /// loaded there.
    ServerModuleMissing {
        /// The node that answered without the module.
        node: String,
    },
    /// Client and server are on different fabric providers, so no transfer
    /// between them can succeed.
    ProviderMismatch {
        /// The provider this client opened.
        client: String,
        /// The provider the node reported through `DMA.INFO`.
        server: String,
        /// The node that disagreed.
        node: String,
    },
    /// Client and server disagree on what `remote_address` means.
    AddressingMismatch {
        /// Whether this client addresses by virtual address.
        client_virt_addr: bool,
        /// Whether the node addresses by virtual address.
        server_virt_addr: bool,
        /// The node that disagreed.
        node: String,
    },
    /// The handshake reply could not be read.
    MalformedHandshake {
        /// The node that answered.
        node: String,
        /// What was wrong with the reply.
        reason: String,
    },
    /// A node's fabric addresses could not be inserted into the local address
    /// vector, so the server could never reach this client's memory.
    PeerInsertFailed {
        /// The node whose addresses were rejected.
        node: String,
        /// The fabric error underneath.
        source: DmaError,
    },
    /// The fabric refused the configuration.
    Fabric(DmaError),
}

/// The mathematical form of a [`DmaUnavailable`].
pub enum DmaUnavailableView {
    NotCompiledIn,
    NoProviderConfigured,
    ServerModuleMissing { node: Seq<char> },
    ProviderMismatch { client: Seq<char>, server: Seq<char>, node: Seq<char> },
    AddressingMismatch { client_virt_addr: bool, server_virt_addr: bool, node: Seq<char> },
    MalformedHandshake { node: Seq<char>, reason: Seq<char> },
    PeerInsertFailed { node: Seq<char>, source: DmaErrorView },
    Fabric(DmaErrorView),
}

impl View for DmaUnavailable {
    type V = DmaUnavailableView;

    open spec fn view(&self) -> DmaUnavailableView {
        match *self {
            DmaUnavailable::NotCompiledIn => DmaUnavailableView::NotCompiledIn,
            DmaUnavailable::NoProviderConfigured => DmaUnavailableView::NoProviderConfigured,
            DmaUnavailable::ServerModuleMissing { node } =>
                DmaUnavailableView::ServerModuleMissing { node: node@ },
            DmaUnavailable::ProviderMismatch { client, server, node } =>
                DmaUnavailableView::ProviderMismatch {
                client: client@,
                server: server@,
                node: node@,
            },
            DmaUnavailable::AddressingMismatch { client_virt_addr, server_virt_addr, node } =>
                DmaUnavailableView::AddressingMismatch {
                client_virt_addr,
                server_virt_addr,
                node: node@,
            },
            DmaUnavailable::MalformedHandshake { node, reason } =>
                DmaUnavailableView::MalformedHandshake { node: node@, reason: reason@ },
            DmaUnavailable::PeerInsertFailed { node, source } =>
                DmaUnavailableView::PeerInsertFailed { node: node@, source: source@ },
            DmaUnavailable::Fabric(error) => DmaUnavailableView::Fabric(error@),
        }
    }
}

impl DmaUnavailableView {
    /// The reason in words.
    pub open spec fn message(self) -> Seq<char> {
        match self {
            DmaUnavailableView::NotCompiledIn =>
                "this build of GLIDE has no DMA support compiled in; install a DMA-capable build to use DmaConfiguration"@,
            DmaUnavailableView::NoProviderConfigured =>
                "DmaConfiguration requires a provider; none was set"@,
            DmaUnavailableView::ServerModuleMissing { node } => "node "@ + node
                + " does not have the valkey-dma module loaded"@,
            DmaUnavailableView::ProviderMismatch { client, server, node } =>
                "provider mismatch with node "@ + node + ": client "@ + client + ", server "@
                + server,
            DmaUnavailableView::AddressingMismatch { client_virt_addr, server_virt_addr, node } =>
                "addressing mismatch with node "@ + node + ": client uses_virtual_addressing="@
                + bool_text(client_virt_addr) + ", server uses_virtual_addressing="@ + bool_text(
                server_virt_addr,
            ),
            DmaUnavailableView::MalformedHandshake { node, reason } => "node "@ + node
                + " returned a malformed DMA.HELLO reply: "@ + reason,
            DmaUnavailableView::PeerInsertFailed { node, source } =>
                "failed to insert fabric addresses for node "@ + node + ": "@ + source.message(),
            DmaUnavailableView::Fabric(error) => error.message(),
        }
    }
}

impl Clone for DmaUnavailable {
    fn clone(&self) -> (copy: Self)
        ensures
            copy@ == self@,
    {
        match self {
            DmaUnavailable::NotCompiledIn => DmaUnavailable::NotCompiledIn,
            DmaUnavailable::NoProviderConfigured => DmaUnavailable::NoProviderConfigured,
            DmaUnavailable::ServerModuleMissing { node } => DmaUnavailable::ServerModuleMissing {
                node: node.clone(),
            },
            DmaUnavailable::ProviderMismatch { client, server, node } =>
                DmaUnavailable::ProviderMismatch {
                client: client.clone(),
                server: server.clone(),
                node: node.clone(),
            },
            DmaUnavailable::AddressingMismatch { client_virt_addr, server_virt_addr, node } =>
                DmaUnavailable::AddressingMismatch {
                client_virt_addr: *client_virt_addr,
                server_virt_addr: *server_virt_addr,
                node: node.clone(),
            },
            DmaUnavailable::MalformedHandshake { node, reason } =>
                DmaUnavailable::MalformedHandshake { node: node.clone(), reason: reason.clone() },
            DmaUnavailable::PeerInsertFailed { node, source } => DmaUnavailable::PeerInsertFailed {
                node: node.clone(),
                source: source.clone(),
            },
            DmaUnavailable::Fabric(error) => DmaUnavailable::Fabric(error.clone()),
        }
    }
}

impl vstd::std_specs::convert::FromSpecImpl<DmaError> for DmaUnavailable {
    open spec fn obeys_from_spec() -> bool {
        true
    }

    open spec fn from_spec(error: DmaError) -> DmaUnavailable {
        DmaUnavailable::Fabric(error)
    }
}

impl From<DmaError> for DmaUnavailable {
    fn from(error: DmaError) -> (reason: Self) {
        DmaUnavailable::Fabric(error)
    }
}

impl DmaUnavailable {
    /// The reason in words.
    pub fn message(&self) -> (text: String)
        ensures
            text@ == self@.message(),
    {
        let mut text = String::new();
        match self {
            DmaUnavailable::NotCompiledIn => {
                text.append(
                    "this build of GLIDE has no DMA support compiled in; install a DMA-capable build to use DmaConfiguration",
                );
            },
            DmaUnavailable::NoProviderConfigured => {
                text.append("DmaConfiguration requires a provider; none was set");
            },
            DmaUnavailable::ServerModuleMissing { node } => {
                text.append("node ");
                text.append(node.as_str());
                text.append(" does not have the valkey-dma module loaded");
            },
            DmaUnavailable::ProviderMismatch { client, server, node } => {
                text.append("provider mismatch with node ");
                text.append(node.as_str());
                text.append(": client ");
                text.append(client.as_str());
                text.append(", server ");
                text.append(server.as_str());
            },
            DmaUnavailable::AddressingMismatch { client_virt_addr, server_virt_addr, node } => {
                text.append("addressing mismatch with node ");
                text.append(node.as_str());
                text.append(": client uses_virtual_addressing=");
                text.append(bool_text_of(*client_virt_addr));
                text.append(", server uses_virtual_addressing=");
                text.append(bool_text_of(*server_virt_addr));
            },
            DmaUnavailable::MalformedHandshake { node, reason } => {
                text.append("node ");
                text.append(node.as_str());
                text.append(" returned a malformed DMA.HELLO reply: ");
                text.append(reason.as_str());
            },
            DmaUnavailable::PeerInsertFailed { node, source } => {
                text.append("failed to insert fabric addresses for node ");
                text.append(node.as_str());
                text.append(": ");
                text.append(source.message().as_str());
            },
            DmaUnavailable::Fabric(error) => {
                text.append(error.message().as_str());
            },
        }
        assert(text@ =~= self@.message());
        text
    }
}

impl DmaSettingView {
    /// How a setting reads in the connection log.
    pub open spec fn summary(self) -> Seq<char> {
        match self {
            DmaSettingView::Absent => Seq::empty(),
            DmaSettingView::Rejected(reason) => "\nDMA: unavailable ("@ + reason.message() + ")"@,
            DmaSettingView::Configured(config) => "\nDMA: "@ + config_summary(config),
        }
    }
}

impl Default for DmaSetting {
    fn default() -> (setting: Self)
        ensures
            setting is Absent,
    {
        DmaSetting::Absent
    }
}

impl Clone for DmaSetting {
    fn clone(&self) -> (copy: Self)
        ensures
            copy@ == self@,
    {
        match self {
            DmaSetting::Absent => DmaSetting::Absent,
            DmaSetting::Rejected(reason) => DmaSetting::Rejected(reason.clone()),
            DmaSetting::Configured(config) => DmaSetting::Configured(config.clone()),
        }
    }
}

impl DmaSetting {
    /// Whether the request asked for DMA at all
    pub fn is_requested(&self) -> (requested: bool)
        ensures
            requested == !(self is Absent),
    {
        match self {
            DmaSetting::Absent => false,
            _ => true,
        }
    }

    /// A fragment for the connection log, empty when DMA was not requested.
    pub fn log_summary(&self) -> (summary: String)
        ensures
            summary@ == self@.summary(),
    {
        match self {
            DmaSetting::Absent => {
                let summary = String::new();
                assert(summary@ =~= Seq::<char>::empty());
                summary
            },
            DmaSetting::Rejected(reason) => {
                let mut summary = "\nDMA: unavailable (".to_string();
                summary.append(reason.message().as_str());
                summary.append(")");
                summary
            },
            DmaSetting::Configured(config) => {
                let mut summary = "\nDMA: ".to_string();
                push_config_summary(&mut summary, config);
                summary
            },
        }
    }
}

/// The connection log mentions DMA just when it was requested.
pub proof fn only_a_requested_setting_is_logged(setting: DmaSettingView)
    ensures
        setting.summary().len() == 0 <==> setting is Absent,
{
    reveal_strlit("\nDMA: unavailable (");
    reveal_strlit("\nDMA: ");
}

/// What opening a setting comes to: nothing where none was asked for, the reason of a
/// rejected one, and otherwise what opening the fabric came to.
pub open spec fn opened_setting<F: FnOnce(&FabricConfig) -> Result<LocalEndpoint, DmaError>>(
    setting: DmaSetting,
    endpoint: F,
    fabric: Result<Option<DmaFabric>, DmaUnavailable>,
) -> bool {
    match setting {
        DmaSetting::Absent => fabric == Ok::<Option<DmaFabric>, DmaUnavailable>(None),
        DmaSetting::Rejected(reason) => fabric is Err && fabric->Err_0@ == reason@,
        DmaSetting::Configured(config) => exists|
            opened: Result<LocalEndpoint, DmaError>,
        | #[trigger]
            endpoint.ensures((&config,), opened) && match opened {
                Ok(_) => fabric is Ok && fabric->Ok_0 is Some && opened_fabric(
                    config@.provider.polls(),
                    opened,
                    Ok(fabric->Ok_0->0),
                ),
                Err(error) => fabric == Err::<Option<DmaFabric>, DmaUnavailable>(
                    DmaUnavailable::Fabric(error),
                ),
            },
    }
}

/// Check that a requested DMA configuration can be honored before connecting. The
/// endpoint is asked for only where one was configured.
pub fn validate<F: FnOnce(&FabricConfig) -> Result<LocalEndpoint, DmaError>>(
    setting: &DmaSetting,
    endpoint: F,
) -> (valid: Result<(), DmaUnavailable>)
    requires
        setting matches DmaSetting::Configured(config) ==> endpoint.requires((&config,)),
    ensures
        match valid {
            Ok(_) => exists|fabric: Option<DmaFabric>| #[trigger]
                opened_setting(*setting, endpoint, Ok(fabric)),
            Err(reason) => opened_setting(*setting, endpoint, Err(reason)),
        },
{
    match open(setting, endpoint) {
        Ok(fabric) => {
            assert(opened_setting(*setting, endpoint, Ok(fabric)));
            Ok(())
        },
        Err(reason) => Err(reason),
    }
}

/// Open the local fabric endpoint, if one was requested.
///
/// `Ok(None)` means DMA was not requested. The returned fabric must be retained
/// for the client's lifetime: dropping it tears down the endpoint that the server
/// moves bytes into.
pub fn open<F: FnOnce(&FabricConfig) -> Result<LocalEndpoint, DmaError>>(
    setting: &DmaSetting,
    endpoint: F,
) -> (fabric: Result<Option<DmaFabric>, DmaUnavailable>)
    requires
        setting matches DmaSetting::Configured(config) ==> endpoint.requires((&config,)),
    ensures
        opened_setting(*setting, endpoint, fabric),
{
    match setting {
        DmaSetting::Absent => Ok(None),
        DmaSetting::Rejected(reason) => Err(reason.clone()),
        DmaSetting::Configured(config) => match DmaFabric::open(config, endpoint) {
            Ok(fabric) => Ok(Some(fabric)),
            Err(error) => Err(DmaUnavailable::from(error)),
        },
    }
}

/// What a node reported of its fabric through `DMA.INFO`.
#[derive(Debug, Clone, PartialEq, Eq)]
pub struct DmaInfo {
    provider: Option<String>,
    uses_virtual_addressing: Option<bool>,
}

impl DmaInfo {
    /// The provider reported, if any.
    pub closed spec fn reported_provider(self) -> Option<Seq<char>> {
        match self.provider {
            Some(provider) => Some(provider@),
            None => None,
        }
    }

    /// The addressing mode reported, if any.
    pub closed spec fn reported_addressing(self) -> Option<bool> {
        self.uses_virtual_addressing
    }

    /// What a node reported, with `None` for what it left out.
    pub fn new(provider: Option<String>, uses_virtual_addressing: Option<bool>) -> (info: Self)
        ensures
            info.reported_provider() == match provider {
                Some(provider) => Some(provider@),
                None => None,
            },
            info.reported_addressing() == uses_virtual_addressing,
    {
        DmaInfo { provider, uses_virtual_addressing }
    }

    /// The provider reported, if any.
    pub fn provider(&self) -> (provider: Option<&str>)
        ensures
            match provider {
                Some(provider) => self.reported_provider() == Some(provider@),
                None => self.reported_provider() is None,
            },
    {
        match &self.provider {
            Some(provider) => Some(provider.as_str()),
            None => None,
        }
    }

    /// Whether the node addresses by virtual address, if it said.
    pub fn uses_virtual_addressing(&self) -> (virtually: Option<bool>)
        ensures
            virtually == self.reported_addressing(),
    {
        self.uses_virtual_addressing
    }
}

/// Why a node's fabric cannot be used, or nothing if it can. What the node does not
/// report counts against it.
pub open spec fn incompatibility(
    fabric: DmaFabricView,
    provider: Provider,
    node: Seq<char>,
    info: DmaInfo,
) -> Option<DmaUnavailableView> {
    match info.reported_provider() {
        None => Some(
            DmaUnavailableView::MalformedHandshake {
                node,
                reason: "DMA.INFO reported no provider"@,
            },
        ),
        Some(reported) => if reported != provider.fabric_name() {
            Some(
                DmaUnavailableView::ProviderMismatch {
                    client: provider.label(),
                    server: reported,
                    node,
                },
            )
        } else {
            match info.reported_addressing() {
                None => Some(
                    DmaUnavailableView::MalformedHandshake {
                        node,
                        reason: "DMA.INFO did not report uses_virtual_addressing"@,
                    },
                ),
                Some(virtually) => if virtually != fabric.virtual_addressing {
                    Some(
                        DmaUnavailableView::AddressingMismatch {
                            client_virt_addr: fabric.virtual_addressing,
                            server_virt_addr: virtually,
                            node,
                        },
                    )
                } else {
                    None
                },
            }
        },
    }
}

/// Check that a node's fabric is compatible with this client's.
/// Checks for provider and addressing mismatches.
pub fn check_compatibility(
    fabric: &DmaFabric,
    provider: Provider,
    node: &str,
    info: &DmaInfo,
) -> (compatible: Result<(), DmaUnavailable>)
    ensures
        match compatible {
            Ok(_) => incompatibility(fabric@, provider, node@, *info) is None,
            Err(reason) => incompatibility(fabric@, provider, node@, *info) == Some(reason@),
        },
{
    let reported = match info.provider() {
        Some(reported) => reported,
        None => {
            return Err(
                DmaUnavailable::MalformedHandshake {
                    node: node.to_string(),
                    reason: "DMA.INFO reported no provider".to_string(),
                },
            );
        },
    };
    if !provider.matches_reported(reported) {
        return Err(
            DmaUnavailable::ProviderMismatch {
                client: provider.name().to_string(),
                server: reported.to_string(),
                node: node.to_string(),
            },
        );
    }
    let server_virt_addr = match info.uses_virtual_addressing() {
        Some(virtually) => virtually,
        None => {
            return Err(
                DmaUnavailable::MalformedHandshake {
                    node: node.to_string(),
                    reason: "DMA.INFO did not report uses_virtual_addressing".to_string(),
                },
            );
        },
    };
    let client_virt_addr = fabric.uses_virtual_addressing();
    if server_virt_addr != client_virt_addr {
        return Err(
            DmaUnavailable::AddressingMismatch {
                client_virt_addr,
                server_virt_addr,
                node: node.to_string(),
            },
        );
    }
    Ok(())
}

/// Being unable to verify means not going on: a node is accepted only where it reported
/// both its provider and its addressing mode, and both are this client's.
pub proof fn compatibility_fails_closed(
    fabric: DmaFabricView,
    provider: Provider,
    node: Seq<char>,
    info: DmaInfo,
)
    ensures
        incompatibility(fabric, provider, node, info) is None <==> {
            &&& info.reported_provider() == Some(provider.fabric_name())
            &&& info.reported_addressing() == Some(fabric.virtual_addressing)
        },
{
}

/// Whether `insert`, asked to insert `address`, can come back with `inserted`.
pub open spec fn may_insert<F: Fn(&[u8]) -> Result<(), DmaError>>(
    insert: F,
    address: Seq<u8>,
    inserted: Result<(), DmaError>,
) -> bool {
    exists|bytes: &[u8]| bytes@ == address && #[trigger] insert.ensures((bytes,), inserted)
}

/// Whether the first `count` addresses were all inserted.
pub open spec fn inserted_first<F: Fn(&[u8]) -> Result<(), DmaError>>(
    insert: F,
    addresses: Seq<Vec<u8>>,
    count: int,
) -> bool {
    forall|i: int| 0 <= i < count ==> may_insert(insert, (#[trigger] addresses[i])@, Ok(()))
}

/// Insert every address a node advertised so it can reach this client's memory. The
/// first that is refused ends it.
pub fn insert_peers<F: Fn(&[u8]) -> Result<(), DmaError>>(
    fabric: &DmaFabric,
    node: &str,
    addresses: &[Vec<u8>],
    insert: F,
) -> (inserted: Result<(), DmaUnavailable>)
    requires
        forall|bytes: &[u8]| insert.requires((bytes,)),
    ensures
        match inserted {
            Ok(_) => inserted_first(insert, addresses@, addresses@.len() as int),
            Err(reason) => exists|at: int, source: DmaError|
                {
                    &&& 0 <= at < addresses@.len()
                    &&& inserted_first(insert, addresses@, at)
                    &&& #[trigger] may_insert(insert, addresses@[at]@, Err(source))
                    &&& reason@ == (DmaUnavailableView::PeerInsertFailed {
                        node: node@,
                        source: source@,
                    })
                },
        },
{
    let mut at: usize = 0;
    while at < addresses.len()
        invariant
            at <= addresses@.len(),
            forall|bytes: &[u8]| insert.requires((bytes,)),
            inserted_first(insert, addresses@, at as int),
        decreases addresses@.len() - at,
    {
        match fabric.insert_peer(addresses[at].as_slice(), &insert) {
            Ok(done) => {
                assert(may_insert(insert, addresses@[at as int]@, Ok(done)));
                assert(done == ());
            },
            Err(source) => {
                assert(may_insert(insert, addresses@[at as int]@, Err(source)));
                return Err(DmaUnavailable::PeerInsertFailed { node: node.to_string(), source });
            },
        }
        at = at + 1;
    }
    Ok(())
}

/// A node that cannot be used is refused for what is wrong with it, and by name: what it
/// did not report is a malformed handshake, another provider a provider mismatch that
/// shows both, and another way of addressing an addressing mismatch that shows both.
pub proof fn a_node_is_refused_for_what_is_wrong(
    fabric: DmaFabricView,
    provider: Provider,
    node: Seq<char>,
    info: DmaInfo,
)
    ensures
        match incompatibility(fabric, provider, node, info) {
            None => true,
            Some(DmaUnavailableView::MalformedHandshake { node: named, .. }) => named == node && (
            info.reported_provider() is None || info.reported_addressing() is None),
            Some(DmaUnavailableView::ProviderMismatch { client, server, node: named }) => {
                &&& named == node
                &&& client == provider.label()
                &&& info.reported_provider() == Some(server)
                &&& server != provider.fabric_name()
            },
            Some(
                DmaUnavailableView::AddressingMismatch {
                    client_virt_addr,
                    server_virt_addr,
                    node: named,
                },
            ) => {
                &&& named == node
                &&& client_virt_addr == fabric.virtual_addressing
                &&& info.reported_addressing() == Some(server_virt_addr)
                &&& server_virt_addr != client_virt_addr
            },
            Some(_) => false,
        },
        info.reported_provider() is None ==> (incompatibility(fabric, provider, node, info)
            matches Some(DmaUnavailableView::MalformedHandshake { reason, .. }) && reason
            == "DMA.INFO reported no provider"@),
        info.reported_provider() is Some && info.reported_provider() != Some(
            provider.fabric_name(),
        ) ==> incompatibility(fabric, provider, node, info) matches Some(
            DmaUnavailableView::ProviderMismatch { .. },
        ),
        info.reported_provider() == Some(provider.fabric_name()) && info.reported_addressing()
            is None ==> (incompatibility(fabric, provider, node, info) matches Some(
            DmaUnavailableView::MalformedHandshake { reason, .. },
        ) && reason == "DMA.INFO did not report uses_virtual_addressing"@),
{
}

/// A reason in words holds whatever the reason carries: the node it is about, and what
/// was wrong there.
pub proof fn a_reason_holds_what_it_carries(reason: DmaUnavailableView)
    ensures
        match reason {
            DmaUnavailableView::NotCompiledIn => true,
            DmaUnavailableView::NoProviderConfigured => true,
            DmaUnavailableView::ServerModuleMissing { node } => holds(reason.message(), node),
            DmaUnavailableView::ProviderMismatch { client, server, node } => {
                &&& holds(reason.message(), client)
                &&& holds(reason.message(), server)
                &&& holds(reason.message(), ": client "@ + client + ", server "@ + server)
                &&& holds(reason.message(), node)
            },
            DmaUnavailableView::AddressingMismatch { client_virt_addr, server_virt_addr, node } => {
                &&& holds(reason.message(), node)
                &&& holds(
                    reason.message(),
                    ": client uses_virtual_addressing="@ + bool_text(client_virt_addr),
                )
                &&& holds(
                    reason.message(),
                    ", server uses_virtual_addressing="@ + bool_text(server_virt_addr),
                )
            },
            DmaUnavailableView::MalformedHandshake { node, reason: wrong } => {
                &&& holds(reason.message(), node)
                &&& holds(reason.message(), wrong)
            },
            DmaUnavailableView::PeerInsertFailed { node, source } => {
                &&& holds(reason.message(), node)
                &&& holds(reason.message(), source.message())
            },
            DmaUnavailableView::Fabric(error) => reason.message() == error.message(),
        },
{
    let message = reason.message();
    let none = Seq::<char>::empty();
    match reason {
        DmaUnavailableView::ServerModuleMissing { node } => {
            lemma_holds(
                message,
                "node "@,
                node,
                " does not have the valkey-dma module loaded"@,
            );
        },
        DmaUnavailableView::ProviderMismatch { client, server, node } => {
            let start = "provider mismatch with node "@;
            lemma_holds(message, start, node, ": client "@ + client + ", server "@ + server);
            lemma_holds(message, start + node + ": client "@, client, ", server "@ + server);
            lemma_holds(
                message,
                start + node + ": client "@ + client + ", server "@,
                server,
                none,
            );
            lemma_holds(
                message,
                start + node,
                ": client "@ + client + ", server "@ + server,
                none,
            );
        },
        DmaUnavailableView::AddressingMismatch { client_virt_addr, server_virt_addr, node } => {
            lemma_holds(
                message,
                "addressing mismatch with node "@,
                node,
                ": client uses_virtual_addressing="@ + bool_text(client_virt_addr)
                    + ", server uses_virtual_addressing="@ + bool_text(server_virt_addr),
            );
            let start = "addressing mismatch with node "@ + node;
            let client = ": client uses_virtual_addressing="@ + bool_text(client_virt_addr);
            let server = ", server uses_virtual_addressing="@ + bool_text(server_virt_addr);
            lemma_holds(message, start, client, server);
            lemma_holds(message, start + client, server, none);
        },
        DmaUnavailableView::MalformedHandshake { node, reason: wrong } => {
            let between = " returned a malformed DMA.HELLO reply: "@;
            lemma_holds(message, "node "@, node, between + wrong);
            lemma_holds(message, "node "@ + node + between, wrong, none);
        },
        DmaUnavailableView::PeerInsertFailed { node, source } => {
            let start = "failed to insert fabric addresses for node "@;
            lemma_holds(message, start, node, ": "@ + source.message());
            lemma_holds(message, start + node + ": "@, source.message(), none);
        },
        _ => {},
    }
}

/// A setting that was rejected is logged with its reason, and one that was configured
/// with its configuration.
pub proof fn the_log_shows_the_reason_or_the_configuration(setting: DmaSettingView)
    ensures
        setting matches DmaSettingView::Rejected(reason) ==> holds(
            setting.summary(),
            reason.message(),
        ),
        setting matches DmaSettingView::Configured(config) ==> holds(
            setting.summary(),
            config_summary(config),
        ),
{
    match setting {
        DmaSettingView::Rejected(reason) => {
            lemma_holds(setting.summary(), "\nDMA: unavailable ("@, reason.message(), ")"@);
        },
        DmaSettingView::Configured(config) => {
            lemma_holds(setting.summary(), "\nDMA: "@, config_summary(config), Seq::empty());
        },
        _ => {},
    }
}

/// A setting opens a fabric just when one was configured and its endpoint opened: an
/// absent one opens nothing, a rejected one fails for its own reason, and an endpoint
/// that failed is reported as it came.
pub proof fn a_setting_opens_what_was_configured<
    F: FnOnce(&FabricConfig) -> Result<LocalEndpoint, DmaError>,
>(
    setting: DmaSetting,
    endpoint: F,
    fabric: Result<Option<DmaFabric>, DmaUnavailable>,
)
    requires
        opened_setting(setting, endpoint, fabric),
    ensures
        setting is Absent ==> fabric is Ok && fabric->Ok_0 is None,
        setting matches DmaSetting::Rejected(reason) ==> fabric is Err && fabric->Err_0@ == reason@,
        setting matches DmaSetting::Configured(config) ==> match fabric {
            Ok(Some(fabric)) => exists|local: LocalEndpoint| #[trigger]
                endpoint.ensures((&config,), Ok(local)) && fabric@.address == local.address@
                    && fabric@.virtual_addressing == local.uses_virtual_addressing
                    && fabric@.polled == (config@.provider == Provider::Tcp),
            Ok(None) => false,
            Err(reason) => exists|error: DmaError| #[trigger]
                endpoint.ensures((&config,), Err(error)) && reason@ == DmaUnavailableView::Fabric(
                    error@,
                ),
        },
{
    if let DmaSetting::Configured(config) = setting {
        let opened = choose|opened: Result<LocalEndpoint, DmaError>| #[trigger]
            endpoint.ensures((&config,), opened) && match opened {
                Ok(_) => fabric is Ok && fabric->Ok_0 is Some && opened_fabric(
                    config@.provider.polls(),
                    opened,
                    Ok(fabric->Ok_0->0),
                ),
                Err(error) => fabric == Err::<Option<DmaFabric>, DmaUnavailable>(
                    DmaUnavailable::Fabric(error),
                ),
            };
        match opened {
            Ok(local) => {
                assert(endpoint.ensures((&config,), Ok(local)));
            },
            Err(error) => {
                assert(endpoint.ensures((&config,), Err(error)));
            },
        }
    }
}

/// An address that counts as inserted was handed to the address vector as it is, and
/// taken.
pub proof fn every_address_was_handed_on<F: Fn(&[u8]) -> Result<(), DmaError>>(
    insert: F,
    addresses: Seq<Vec<u8>>,
    count: int,
    at: int,
)
    requires
        inserted_first(insert, addresses, count),
        0 <= at < count,
    ensures
        exists|bytes: &[u8]|
            bytes@ == addresses[at]@ && #[trigger] insert.ensures((bytes,), Ok(())),
{
    assert(may_insert(insert, addresses[at]@, Ok(())));
}

/// A reason is seen as it is, with everything it carries.
pub proof fn a_reason_is_seen_as_it_is(reason: DmaUnavailable)
    ensures
        match (reason, reason@) {
            (DmaUnavailable::NotCompiledIn, DmaUnavailableView::NotCompiledIn) => true,
            (
                DmaUnavailable::NoProviderConfigured,
                DmaUnavailableView::NoProviderConfigured,
            ) => true,
            (
                DmaUnavailable::ServerModuleMissing { node },
                DmaUnavailableView::ServerModuleMissing { node: seen },
            ) => seen == node@,
            (
                DmaUnavailable::ProviderMismatch { client, server, node },
                DmaUnavailableView::ProviderMismatch {
                    client: seen_client,
                    server: seen_server,
                    node: seen,
                },
            ) => seen_client == client@ && seen_server == server@ && seen == node@,
            (
                DmaUnavailable::AddressingMismatch { client_virt_addr, server_virt_addr, node },
                DmaUnavailableView::AddressingMismatch {
                    client_virt_addr: seen_client,
                    server_virt_addr: seen_server,
                    node: seen,
                },
            ) => seen_client == client_virt_addr && seen_server == server_virt_addr && seen
                == node@,
            (
                DmaUnavailable::MalformedHandshake { node, reason: wrong },
                DmaUnavailableView::MalformedHandshake { node: seen, reason: seen_wrong },
            ) => seen == node@ && seen_wrong == wrong@,
            (
                DmaUnavailable::PeerInsertFailed { node, source },
                DmaUnavailableView::PeerInsertFailed { node: seen, source: seen_source },
            ) => seen == node@ && seen_source == source@,
            (DmaUnavailable::Fabric(error), DmaUnavailableView::Fabric(seen)) => seen == error@,
            _ => false,
        },
{
}

} // verus!
