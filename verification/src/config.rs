//! Which fabric to open, and how.

use vstd::prelude::*;
use vstd::string::StringExecFns;

verus! {

/// A libfabric provider.
#[derive(Debug, Clone, Copy, PartialEq, Eq, Structural)]
pub enum Provider {
    /// Software emulation over tcp, for development.
    Tcp,
    /// Elastic Fabric Adapter hardware.
    EfaDirect,
}

impl Provider {
    /// Whether a transfer only progresses while the target polls. tcp emulates remote
    /// memory access in software, so it does; efa-direct generates no completions.
    pub open spec fn polls(self) -> bool {
        self == Provider::Tcp
    }

    /// The name libfabric and a server's diagnostics give this provider.
    pub open spec fn fabric_name(self) -> Seq<char> {
        match self {
            Provider::Tcp => "tcp"@,
            Provider::EfaDirect => "efa-direct"@,
        }
    }

    /// The name a log or an error message gives this provider.
    pub open spec fn label(self) -> Seq<char> {
        match self {
            Provider::Tcp => "Tcp"@,
            Provider::EfaDirect => "EfaDirect"@,
        }
    }

    /// Whether a transfer only progresses while the target polls.
    pub fn needs_manual_progress(self) -> (polls: bool)
        ensures
            polls == self.polls(),
    {
        match self {
            Provider::Tcp => true,
            Provider::EfaDirect => false,
        }
    }

    /// Whether a provider name that a server reported is this provider's.
    pub fn matches_reported(self, reported: &str) -> (matches: bool)
        ensures
            matches == (reported@ == self.fabric_name()),
    {
        let name = match self {
            Provider::Tcp => "tcp",
            Provider::EfaDirect => "efa-direct",
        };
        reported.to_string() == name.to_string()
    }

    /// The name a log or an error message gives this provider.
    pub fn name(self) -> (name: &'static str)
        ensures
            name@ == self.label(),
    {
        match self {
            Provider::Tcp => "Tcp",
            Provider::EfaDirect => "EfaDirect",
        }
    }
}

/// The text an option holds.
pub open spec fn optional_text(text: Option<String>) -> Option<Seq<char>> {
    match text {
        Some(text) => Some(text@),
        None => None,
    }
}

/// The fabric a client asks for.
#[derive(Debug, PartialEq, Eq)]
pub struct FabricConfig {
    provider: Provider,
    interface: Option<String>,
    bind: Option<String>,
}

/// The mathematical form of a [`FabricConfig`].
pub struct FabricConfigView {
    pub provider: Provider,
    pub interface: Option<Seq<char>>,
    pub bind: Option<Seq<char>>,
}

impl View for FabricConfig {
    type V = FabricConfigView;

    closed spec fn view(&self) -> FabricConfigView {
        FabricConfigView {
            provider: self.provider,
            interface: optional_text(self.interface),
            bind: optional_text(self.bind),
        }
    }
}

fn copy_text(text: &Option<String>) -> (copy: Option<String>)
    ensures
        optional_text(copy) == optional_text(*text),
{
    match text {
        Some(text) => Some(text.clone()),
        None => None,
    }
}

impl Clone for FabricConfig {
    fn clone(&self) -> (copy: Self)
        ensures
            copy@ == self@,
    {
        FabricConfig {
            provider: self.provider,
            interface: copy_text(&self.interface),
            bind: copy_text(&self.bind),
        }
    }
}

impl FabricConfig {
    /// Any card the provider offers, at any local address.
    pub fn new(provider: Provider) -> (config: Self)
        ensures
            config@ == (FabricConfigView { provider, interface: None, bind: None }),
    {
        FabricConfig { provider, interface: None, bind: None }
    }

    /// Use the card of this name.
    pub fn with_interface(self, interface: &str) -> (config: Self)
        ensures
            config@ == (FabricConfigView { interface: Some(interface@), ..self@ }),
    {
        FabricConfig {
            provider: self.provider,
            interface: Some(interface.to_string()),
            bind: self.bind,
        }
    }

    /// Bind to this local address.
    pub fn with_bind(self, bind: &str) -> (config: Self)
        ensures
            config@ == (FabricConfigView { bind: Some(bind@), ..self@ }),
    {
        FabricConfig {
            provider: self.provider,
            interface: self.interface,
            bind: Some(bind.to_string()),
        }
    }

    /// The provider asked for.
    pub fn provider(&self) -> (provider: Provider)
        ensures
            provider == self@.provider,
    {
        self.provider
    }

    /// The card asked for, if any.
    pub fn interface(&self) -> (interface: Option<&str>)
        ensures
            match interface {
                Some(interface) => self@.interface == Some(interface@),
                None => self@.interface is None,
            },
    {
        match &self.interface {
            Some(interface) => Some(interface.as_str()),
            None => None,
        }
    }

    /// The local address asked for, if any.
    pub fn bind(&self) -> (bind: Option<&str>)
        ensures
            match bind {
                Some(bind) => self@.bind == Some(bind@),
                None => self@.bind is None,
            },
    {
        match &self.bind {
            Some(bind) => Some(bind.as_str()),
            None => None,
        }
    }
}

/// How a configuration reads in the connection log: the provider, then whatever
/// options are set.
pub open spec fn config_summary(config: FabricConfigView) -> Seq<char> {
    config.provider.label() + (match config.interface {
        Some(interface) => ", interface: "@ + interface,
        None => Seq::empty(),
    }) + (match config.bind {
        Some(bind) => ", bind: "@ + bind,
        None => Seq::empty(),
    })
}

/// Append how a configuration reads in the connection log.
pub(crate) fn push_config_summary(text: &mut String, config: &FabricConfig)
    ensures
        final(text)@ == old(text)@ + config_summary(config@),
{
    let ghost before = text@;
    text.append(config.provider().name());
    if let Some(interface) = config.interface() {
        text.append(", interface: ");
        text.append(interface);
    }
    if let Some(bind) = config.bind() {
        text.append(", bind: ");
        text.append(bind);
    }
    assert(text@ =~= before + config_summary(config@));
}

/// tcp, which emulates remote access in software, is the one provider that polls, and
/// the two providers have different names, to libfabric and in the log.
pub proof fn only_tcp_polls(provider: Provider, other: Provider)
    ensures
        provider.polls() <==> provider.fabric_name() == "tcp"@,
        provider.fabric_name() == other.fabric_name() <==> provider == other,
        provider.label() == other.label() <==> provider == other,
{
    reveal_strlit("tcp");
    reveal_strlit("efa-direct");
    reveal_strlit("Tcp");
    reveal_strlit("EfaDirect");
    assert("tcp"@.len() != "efa-direct"@.len());
    assert("Tcp"@.len() != "EfaDirect"@.len());
}

/// A configuration without options is logged as its provider, and each option that is
/// set adds its value in full to what is logged without it.
pub proof fn each_option_adds_to_the_log(config: FabricConfigView, value: Seq<char>)
    ensures
        ({
            let bare = FabricConfigView { interface: None, bind: None, ..config };
            let plain = FabricConfigView { bind: None, ..config };
            let bound = FabricConfigView { bind: Some(value), ..config };
            let carded = FabricConfigView { interface: Some(value), bind: None, ..config };
            &&& config_summary(bare) == config.provider.label()
            &&& config_summary(carded) == config_summary(bare) + ", interface: "@ + value
            &&& config_summary(bound) == config_summary(plain) + ", bind: "@ + value
        }),
{
    let bare = FabricConfigView { interface: None, bind: None, ..config };
    let plain = FabricConfigView { bind: None, ..config };
    let bound = FabricConfigView { bind: Some(value), ..config };
    let carded = FabricConfigView { interface: Some(value), bind: None, ..config };
    assert(config_summary(bare) =~= config.provider.label());
    assert(config_summary(carded) =~= config_summary(bare) + ", interface: "@ + value);
    assert(config_summary(bound) =~= config_summary(plain) + ", bind: "@ + value);
}

} // verus!
