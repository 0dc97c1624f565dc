//! What a connection request asks of RDMA, and whether it can be honored.

use vstd::prelude::*;
use vstd::string::StringExecFns;

use crate::config::{push_config_summary, FabricConfig};
#[allow(unused_imports)]
use crate::config::{config_summary, FabricConfigView};
use crate::rdma::error::RdmaError;
#[allow(unused_imports)]
use crate::rdma::error::RdmaErrorView;
#[allow(unused_imports)]
use crate::text::{holds, lemma_holds};

verus! {

/// What a connection request asked of RDMA and whether it can be honored.
#[derive(Debug)]
pub enum RdmaSetting {
    /// No RDMA was requested. The zero-cost default.
    Absent,
    /// RDMA was requested but cannot be honored, for this reason.
    Rejected(RdmaUnavailable),
    /// RDMA was requested and the configuration is usable.
    Configured(FabricConfig),
}

/// The mathematical form of a [`RdmaSetting`].
pub enum RdmaSettingView {
    Absent,
    Rejected(RdmaUnavailableView),
    Configured(FabricConfigView),
}

impl View for RdmaSetting {
    type V = RdmaSettingView;

    open spec fn view(&self) -> RdmaSettingView {
        match *self {
            RdmaSetting::Absent => RdmaSettingView::Absent,
            RdmaSetting::Rejected(reason) => RdmaSettingView::Rejected(reason@),
            RdmaSetting::Configured(config) => RdmaSettingView::Configured(config@),
        }
    }
}

/// The reason a requested RDMA configuration cannot be honored.
#[derive(Debug, PartialEq, Eq)]
#[non_exhaustive]
pub enum RdmaUnavailable {
    /// No RDMA support compiled in but the configuration is valid.
    NotCompiledIn,
    /// No provider was named.
    NoProviderConfigured,
    /// A node did not recognise the RDMA commands, so whatever module serves them
    /// is not loaded there.
    ServerModuleMissing {
        /// The node that answered without the module.
        node: String,
    },
    /// A node answered the handshake with an error of its own. A replica does
    /// this because the module registers `LO.HELLO` as a write command.
    HandshakeRefused {
        /// The node that refused.
        node: String,
        /// What it said.
        reason: String,
    },
    /// The handshake reply could not be read.
    MalformedHandshake {
        /// The node that answered.
        node: String,
        /// What was wrong with the reply.
        reason: String,
    },
    /// The fabric refused the configuration.
    Fabric(RdmaError),
}

/// The mathematical form of a [`RdmaUnavailable`].
pub enum RdmaUnavailableView {
    NotCompiledIn,
    NoProviderConfigured,
    ServerModuleMissing { node: Seq<char> },
    HandshakeRefused { node: Seq<char>, reason: Seq<char> },
    MalformedHandshake { node: Seq<char>, reason: Seq<char> },
    Fabric(RdmaErrorView),
}

impl View for RdmaUnavailable {
    type V = RdmaUnavailableView;

    open spec fn view(&self) -> RdmaUnavailableView {
        match *self {
            RdmaUnavailable::NotCompiledIn => RdmaUnavailableView::NotCompiledIn,
            RdmaUnavailable::NoProviderConfigured => RdmaUnavailableView::NoProviderConfigured,
            RdmaUnavailable::ServerModuleMissing { node } =>
                RdmaUnavailableView::ServerModuleMissing { node: node@ },
            RdmaUnavailable::HandshakeRefused { node, reason } =>
                RdmaUnavailableView::HandshakeRefused { node: node@, reason: reason@ },
            RdmaUnavailable::MalformedHandshake { node, reason } =>
                RdmaUnavailableView::MalformedHandshake { node: node@, reason: reason@ },
            RdmaUnavailable::Fabric(error) => RdmaUnavailableView::Fabric(error@),
        }
    }
}

impl RdmaUnavailableView {
    /// The reason in words.
    pub open spec fn message(self) -> Seq<char> {
        match self {
            RdmaUnavailableView::NotCompiledIn =>
                "this build of GLIDE has no RDMA support compiled in; it was built from source without the `rdma` feature."@,
            RdmaUnavailableView::NoProviderConfigured =>
                "RdmaConfiguration requires a provider; none was set"@,
            RdmaUnavailableView::ServerModuleMissing { node } => "node "@ + node
                + " has no RDMA module loaded"@,
            RdmaUnavailableView::HandshakeRefused { node, reason } => "node "@ + node
                + " refused the RDMA handshake: "@ + reason,
            RdmaUnavailableView::MalformedHandshake { node, reason } => "node "@ + node
                + " returned a malformed LO.HELLO reply: "@ + reason,
            RdmaUnavailableView::Fabric(error) => error.message(),
        }
    }
}

impl Clone for RdmaUnavailable {
    fn clone(&self) -> (copy: Self)
        ensures
            copy@ == self@,
    {
        match self {
            RdmaUnavailable::NotCompiledIn => RdmaUnavailable::NotCompiledIn,
            RdmaUnavailable::NoProviderConfigured => RdmaUnavailable::NoProviderConfigured,
            RdmaUnavailable::ServerModuleMissing { node } => RdmaUnavailable::ServerModuleMissing {
                node: node.clone(),
            },
            RdmaUnavailable::HandshakeRefused { node, reason } =>
                RdmaUnavailable::HandshakeRefused { node: node.clone(), reason: reason.clone() },
            RdmaUnavailable::MalformedHandshake { node, reason } =>
                RdmaUnavailable::MalformedHandshake { node: node.clone(), reason: reason.clone() },
            RdmaUnavailable::Fabric(error) => RdmaUnavailable::Fabric(error.clone()),
        }
    }
}

impl vstd::std_specs::convert::FromSpecImpl<RdmaError> for RdmaUnavailable {
    open spec fn obeys_from_spec() -> bool {
        true
    }

    open spec fn from_spec(error: RdmaError) -> RdmaUnavailable {
        RdmaUnavailable::Fabric(error)
    }
}

impl From<RdmaError> for RdmaUnavailable {
    fn from(error: RdmaError) -> (reason: Self) {
        RdmaUnavailable::Fabric(error)
    }
}

impl RdmaUnavailable {
    /// The reason in words.
    pub fn message(&self) -> (text: String)
        ensures
            text@ == self@.message(),
    {
        let mut text = String::new();
        match self {
            RdmaUnavailable::NotCompiledIn => {
                text.append(
                    "this build of GLIDE has no RDMA support compiled in; it was built from source without the `rdma` feature.",
                );
            },
            RdmaUnavailable::NoProviderConfigured => {
                text.append("RdmaConfiguration requires a provider; none was set");
            },
            RdmaUnavailable::ServerModuleMissing { node } => {
                text.append("node ");
                text.append(node.as_str());
                text.append(" has no RDMA module loaded");
            },
            RdmaUnavailable::HandshakeRefused { node, reason } => {
                text.append("node ");
                text.append(node.as_str());
                text.append(" refused the RDMA handshake: ");
                text.append(reason.as_str());
            },
            RdmaUnavailable::MalformedHandshake { node, reason } => {
                text.append("node ");
                text.append(node.as_str());
                text.append(" returned a malformed LO.HELLO reply: ");
                text.append(reason.as_str());
            },
            RdmaUnavailable::Fabric(error) => {
                text.append(error.message().as_str());
            },
        }
        assert(text@ =~= self@.message());
        text
    }
}

impl RdmaSettingView {
    /// How a setting reads in the connection log.
    pub open spec fn summary(self) -> Seq<char> {
        match self {
            RdmaSettingView::Absent => Seq::empty(),
            RdmaSettingView::Rejected(reason) => "\nRDMA: unavailable ("@ + reason.message() + ")"@,
            RdmaSettingView::Configured(config) => "\nRDMA: "@ + config_summary(config),
        }
    }
}

impl Default for RdmaSetting {
    fn default() -> (setting: Self)
        ensures
            setting is Absent,
    {
        RdmaSetting::Absent
    }
}

impl Clone for RdmaSetting {
    fn clone(&self) -> (copy: Self)
        ensures
            copy@ == self@,
    {
        match self {
            RdmaSetting::Absent => RdmaSetting::Absent,
            RdmaSetting::Rejected(reason) => RdmaSetting::Rejected(reason.clone()),
            RdmaSetting::Configured(config) => RdmaSetting::Configured(config.clone()),
        }
    }
}

impl RdmaSetting {
    /// Whether the request asked for RDMA at all
    pub fn is_requested(&self) -> (requested: bool)
        ensures
            requested == !(self is Absent),
    {
        match self {
            RdmaSetting::Absent => false,
            _ => true,
        }
    }

    /// A fragment for the connection log, empty when RDMA was not requested.
    pub fn log_summary(&self) -> (summary: String)
        ensures
            summary@ == self@.summary(),
    {
        match self {
            RdmaSetting::Absent => {
                let summary = String::new();
                assert(summary@ =~= Seq::<char>::empty());
                summary
            },
            RdmaSetting::Rejected(reason) => {
                let mut summary = "\nRDMA: unavailable (".to_string();
                summary.append(reason.message().as_str());
                summary.append(")");
                summary
            },
            RdmaSetting::Configured(config) => {
                let mut summary = "\nRDMA: ".to_string();
                push_config_summary(&mut summary, config);
                summary
            },
        }
    }
}

/// The local endpoint of RDMA: the address a handshake tells the server.
#[derive(Debug, PartialEq, Eq)]
pub struct RdmaFabric {
    address: Vec<u8>,
}

impl View for RdmaFabric {
    type V = Seq<u8>;

    closed spec fn view(&self) -> Seq<u8> {
        self.address@
    }
}

impl Clone for RdmaFabric {
    fn clone(&self) -> (copy: Self)
        ensures
            copy@ == self@,
    {
        let address = self.address.clone();
        assert(address@ =~= self.address@);
        RdmaFabric { address }
    }
}

/// What opening a fabric comes to, given what opening its endpoint came to: the
/// endpoint's own failure, or a fabric at the address it reported.
pub open spec fn opened_at(
    endpoint: Result<Vec<u8>, RdmaError>,
    fabric: Result<RdmaFabric, RdmaError>,
) -> bool {
    match endpoint {
        Ok(address) => fabric is Ok && fabric->Ok_0@ == address@,
        Err(error) => fabric == Err::<RdmaFabric, RdmaError>(error),
    }
}

impl RdmaFabric {
    /// Open an endpoint for `config`: `endpoint` asks the fabric for one, and says
    /// where it is.
    pub fn open<F: FnOnce(&FabricConfig) -> Result<Vec<u8>, RdmaError>>(
        config: &FabricConfig,
        endpoint: F,
    ) -> (fabric: Result<Self, RdmaError>)
        requires
            endpoint.requires((config,)),
        ensures
            exists|opened: Result<Vec<u8>, RdmaError>| #[trigger]
                endpoint.ensures((config,), opened) && opened_at(opened, fabric),
    {
        let opened = endpoint(config);
        let ghost reported = opened;
        assert(endpoint.ensures((config,), reported));
        match opened {
            Ok(address) => Ok(RdmaFabric { address }),
            Err(error) => Err(error),
        }
    }

    /// This endpoint's local fabric address.
    pub fn local_address(&self) -> (address: &[u8])
        ensures
            address@ == self@,
    {
        self.address.as_slice()
    }
}

/// The fabric a client's connections handshake with.
///
/// A new type rather than the fabric itself so that the plumbing carrying it
/// down to connection setup is ordinary parameters instead of conditional ones.
#[derive(Debug)]
pub struct Fabric(RdmaFabric);

impl View for Fabric {
    type V = Seq<u8>;

    closed spec fn view(&self) -> Seq<u8> {
        self.0@
    }
}

impl Clone for Fabric {
    fn clone(&self) -> (copy: Self)
        ensures
            copy@ == self@,
    {
        Fabric(self.0.clone())
    }
}

impl Fabric {
    /// The fabric itself, for the connection layer that advertises it.
    pub fn opened(self) -> (fabric: RdmaFabric)
        ensures
            fabric@ == self@,
    {
        self.0
    }

    /// The fabric itself, for the client that registers memory with it.
    pub fn get(&self) -> (fabric: &RdmaFabric)
        ensures
            fabric@ == self@,
    {
        &self.0
    }
}

/// The connection log mentions RDMA just when it was requested.
pub proof fn only_a_requested_setting_is_logged(setting: RdmaSettingView)
    ensures
        setting.summary().len() == 0 <==> setting is Absent,
{
    reveal_strlit("\nRDMA: unavailable (");
    reveal_strlit("\nRDMA: ");
}

/// What opening a setting comes to: nothing where none was asked for, the reason of a
/// rejected one, and otherwise what opening the fabric came to.
pub open spec fn opened_setting<F: FnOnce(&FabricConfig) -> Result<Vec<u8>, RdmaError>>(
    setting: RdmaSetting,
    endpoint: F,
    fabric: Result<Option<Fabric>, RdmaUnavailable>,
) -> bool {
    match setting {
        RdmaSetting::Absent => fabric == Ok::<Option<Fabric>, RdmaUnavailable>(None),
        RdmaSetting::Rejected(reason) => fabric is Err && fabric->Err_0@ == reason@,
        RdmaSetting::Configured(config) => exists|opened: Result<Vec<u8>, RdmaError>| #[trigger]
            endpoint.ensures((&config,), opened) && match opened {
                Ok(address) => fabric is Ok && fabric->Ok_0 is Some && fabric->Ok_0->0@
                    == address@,
                Err(error) => fabric == Err::<Option<Fabric>, RdmaUnavailable>(
                    RdmaUnavailable::Fabric(error),
                ),
            },
    }
}

/// Open the local fabric endpoint, if one was requested: `endpoint` asks the fabric for
/// one, and is asked only where one was configured.
///
/// `Ok(None)` means RDMA was not requested. The returned fabric must be retained for
/// the client's lifetime: dropping it tears down the endpoint that the server moves
/// bytes into.
pub fn open<F: FnOnce(&FabricConfig) -> Result<Vec<u8>, RdmaError>>(
    setting: &RdmaSetting,
    endpoint: F,
) -> (fabric: Result<Option<Fabric>, RdmaUnavailable>)
    requires
        setting matches RdmaSetting::Configured(config) ==> endpoint.requires((&config,)),
    ensures
        opened_setting(*setting, endpoint, fabric),
{
    match setting {
        RdmaSetting::Absent => Ok(None),
        RdmaSetting::Rejected(reason) => Err(reason.clone()),
        RdmaSetting::Configured(config) => match RdmaFabric::open(config, endpoint) {
            Ok(fabric) => Ok(Some(Fabric(fabric))),
            Err(error) => Err(RdmaUnavailable::from(error)),
        },
    }
}

/// A reason in words holds whatever the reason carries: the node it is about, and what
/// was wrong there.
pub proof fn a_reason_holds_what_it_carries(reason: RdmaUnavailableView)
    ensures
        match reason {
            RdmaUnavailableView::NotCompiledIn => true,
            RdmaUnavailableView::NoProviderConfigured => true,
            RdmaUnavailableView::ServerModuleMissing { node } => holds(reason.message(), node),
            RdmaUnavailableView::HandshakeRefused { node, reason: said } => {
                &&& holds(reason.message(), node)
                &&& holds(reason.message(), said)
            },
            RdmaUnavailableView::MalformedHandshake { node, reason: wrong } => {
                &&& holds(reason.message(), node)
                &&& holds(reason.message(), wrong)
            },
            RdmaUnavailableView::Fabric(error) => reason.message() == error.message(),
        },
{
    let message = reason.message();
    let none = Seq::<char>::empty();
    match reason {
        RdmaUnavailableView::ServerModuleMissing { node } => {
            lemma_holds(message, "node "@, node, " has no RDMA module loaded"@);
        },
        RdmaUnavailableView::HandshakeRefused { node, reason: said } => {
            let between = " refused the RDMA handshake: "@;
            lemma_holds(message, "node "@, node, between + said);
            lemma_holds(message, "node "@ + node + between, said, none);
        },
        RdmaUnavailableView::MalformedHandshake { node, reason: wrong } => {
            let between = " returned a malformed LO.HELLO reply: "@;
            lemma_holds(message, "node "@, node, between + wrong);
            lemma_holds(message, "node "@ + node + between, wrong, none);
        },
        _ => {},
    }
}

/// A setting that was rejected is logged with its reason, and one that was configured
/// with its configuration.
pub proof fn the_log_shows_the_reason_or_the_configuration(setting: RdmaSettingView)
    ensures
        setting matches RdmaSettingView::Rejected(reason) ==> holds(
            setting.summary(),
            reason.message(),
        ),
        setting matches RdmaSettingView::Configured(config) ==> holds(
            setting.summary(),
            config_summary(config),
        ),
{
    match setting {
        RdmaSettingView::Rejected(reason) => {
            lemma_holds(setting.summary(), "\nRDMA: unavailable ("@, reason.message(), ")"@);
        },
        RdmaSettingView::Configured(config) => {
            lemma_holds(setting.summary(), "\nRDMA: "@, config_summary(config), Seq::empty());
        },
        _ => {},
    }
}

/// A setting opens a fabric just when one was configured and its endpoint opened: an
/// absent one opens nothing, a rejected one fails for its own reason, and an endpoint
/// that failed is reported as it came.
pub proof fn a_setting_opens_what_was_configured<
    F: FnOnce(&FabricConfig) -> Result<Vec<u8>, RdmaError>,
>(
    setting: RdmaSetting,
    endpoint: F,
    fabric: Result<Option<Fabric>, RdmaUnavailable>,
)
    requires
        opened_setting(setting, endpoint, fabric),
    ensures
        setting is Absent ==> fabric is Ok && fabric->Ok_0 is None,
        setting matches RdmaSetting::Rejected(reason) ==> fabric is Err && fabric->Err_0@
            == reason@,
        setting matches RdmaSetting::Configured(config) ==> match fabric {
            Ok(Some(fabric)) => exists|address: Vec<u8>| #[trigger]
                endpoint.ensures((&config,), Ok(address)) && fabric@ == address@,
            Ok(None) => false,
            Err(reason) => exists|error: RdmaError| #[trigger]
                endpoint.ensures((&config,), Err(error)) && reason@ == RdmaUnavailableView::Fabric(
                    error@,
                ),
        },
{
    if let RdmaSetting::Configured(config) = setting {
        let opened = choose|opened: Result<Vec<u8>, RdmaError>| #[trigger]
            endpoint.ensures((&config,), opened) && match opened {
                Ok(address) => fabric is Ok && fabric->Ok_0 is Some && fabric->Ok_0->0@
                    == address@,
                Err(error) => fabric == Err::<Option<Fabric>, RdmaUnavailable>(
                    RdmaUnavailable::Fabric(error),
                ),
            };
        match opened {
            Ok(address) => {
                assert(endpoint.ensures((&config,), Ok(address)));
            },
            Err(error) => {
                assert(endpoint.ensures((&config,), Err(error)));
            },
        }
    }
}

/// A reason is seen as it is, with everything it carries.
pub proof fn a_reason_is_seen_as_it_is(reason: RdmaUnavailable)
    ensures
        match (reason, reason@) {
            (RdmaUnavailable::NotCompiledIn, RdmaUnavailableView::NotCompiledIn) => true,
            (
                RdmaUnavailable::NoProviderConfigured,
                RdmaUnavailableView::NoProviderConfigured,
            ) => true,
            (
                RdmaUnavailable::ServerModuleMissing { node },
                RdmaUnavailableView::ServerModuleMissing { node: seen },
            ) => seen == node@,
            (
                RdmaUnavailable::HandshakeRefused { node, reason: said },
                RdmaUnavailableView::HandshakeRefused { node: seen, reason: seen_said },
            ) => seen == node@ && seen_said == said@,
            (
                RdmaUnavailable::MalformedHandshake { node, reason: wrong },
                RdmaUnavailableView::MalformedHandshake { node: seen, reason: seen_wrong },
            ) => seen == node@ && seen_wrong == wrong@,
            (RdmaUnavailable::Fabric(error), RdmaUnavailableView::Fabric(seen)) => seen == error@,
            _ => false,
        },
{
}

} // verus!
