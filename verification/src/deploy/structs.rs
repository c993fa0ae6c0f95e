//! How a challenge is deployed.

use vstd::prelude::*;
use vstd::string::*;
use crate::text::{decimal, decimal_string, is_relative_path};
use crate::views::opt_view;

verus! {

/// The role of a deployed container.
#[derive(Debug, Clone, Copy, PartialEq, Eq, Structural)]
pub enum DeployTargetType {
    Web,
    Admin,
    Nc,
    Static,
}

/// The name of a role.
pub open spec fn target_type_name(role: DeployTargetType) -> Seq<char> {
    match role {
        DeployTargetType::Web => "web"@,
        DeployTargetType::Admin => "admin"@,
        DeployTargetType::Nc => "nc"@,
        DeployTargetType::Static => "static"@,
    }
}

impl DeployTargetType {
    /// Whether this is the web role.
    pub fn is_web(&self) -> (yes: bool)
        ensures
            yes == (*self == DeployTargetType::Web),
    {
        matches!(self, DeployTargetType::Web)
    }

    /// Whether this is the admin role.
    pub fn is_admin(&self) -> (yes: bool)
        ensures
            yes == (*self == DeployTargetType::Admin),
    {
        matches!(self, DeployTargetType::Admin)
    }

    /// Whether this is the nc role.
    pub fn is_nc(&self) -> (yes: bool)
        ensures
            yes == (*self == DeployTargetType::Nc),
    {
        matches!(self, DeployTargetType::Nc)
    }

    /// Whether this is the static role.
    pub fn is_static(&self) -> (yes: bool)
        ensures
            yes == (*self == DeployTargetType::Static),
    {
        matches!(self, DeployTargetType::Static)
    }

    /// The name of this role.
    pub fn as_str(&self) -> (name: &'static str)
        ensures
            name@ == target_type_name(*self),
    {
        match self {
            DeployTargetType::Web => "web",
            DeployTargetType::Admin => "admin",
            DeployTargetType::Nc => "nc",
            DeployTargetType::Static => "static",
        }
    }
}

/// Where a deployed container can be reached.
#[derive(Debug, Clone, PartialEq)]
pub struct DeployLink {
    pub deploy_target: DeployTargetType,
    pub link: String,
}

impl View for DeployLink {
    type V = (DeployTargetType, Seq<char>);

    open spec fn view(&self) -> (DeployTargetType, Seq<char>) {
        (self.deploy_target, self.link@)
    }
}

/// A port and the protocol that is spoken on it. The port is as wide as
/// thirty-two bits: it is not held to the sixteen bits of network ports.
#[derive(Debug, Clone, Copy, PartialEq, Eq, Structural)]
pub enum NetworkProtocol {
    Tcp(u32),
    Udp(u32),
}

/// The text `<port>/<protocol>` of an exposure.
pub open spec fn expose_text(expose: NetworkProtocol) -> Seq<char> {
    match expose {
        NetworkProtocol::Tcp(port) => decimal(port as nat) + "/tcp"@,
        NetworkProtocol::Udp(port) => decimal(port as nat) + "/udp"@,
    }
}

impl NetworkProtocol {
    /// The port.
    pub open spec fn spec_port(&self) -> u32 {
        match *self {
            NetworkProtocol::Tcp(port) => port,
            NetworkProtocol::Udp(port) => port,
        }
    }

    /// The port.
    #[verifier::when_used_as_spec(spec_port)]
    pub fn port(&self) -> (port: u32)
        ensures
            port == self.spec_port(),
    {
        match *self {
            NetworkProtocol::Tcp(port) => port,
            NetworkProtocol::Udp(port) => port,
        }
    }

    /// Whether the protocol is TCP.
    pub fn is_tcp(&self) -> (yes: bool)
        ensures
            yes == (*self is Tcp),
    {
        matches!(self, NetworkProtocol::Tcp(_))
    }

    /// Whether the protocol is UDP.
    pub fn is_udp(&self) -> (yes: bool)
        ensures
            yes == (*self is Udp),
    {
        matches!(self, NetworkProtocol::Udp(_))
    }

    /// The text `<port>/<protocol>` of this exposure.
    pub fn expose_string(&self) -> (text: String)
        ensures
            text@ == expose_text(*self),
    {
        let mut text = decimal_string(self.port() as u64);
        match self {
            NetworkProtocol::Tcp(_) => text.append("/tcp"),
            NetworkProtocol::Udp(_) => text.append("/udp"),
        }
        text
    }
}

/// One deployed container.
#[derive(Debug, Clone, PartialEq)]
pub struct DeployTarget {
    /// What the container exposes.
    pub expose: NetworkProtocol,
    /// Where the container is built from: a relative path.
    pub build: String,
    /// How many copies run: at least one.
    pub replicas: u8,
}

/// The mathematical value of a [`DeployTarget`].
#[verifier::ext_equal]
pub struct DeployTargetView {
    pub expose: NetworkProtocol,
    pub build: Seq<char>,
    pub replicas: u8,
}

impl DeployTargetView {
    /// What holds of every target that validation lets through.
    pub open spec fn well_formed(self) -> bool {
        &&& is_relative_path(self.build)
        &&& self.replicas >= 1
    }
}

impl View for DeployTarget {
    type V = DeployTargetView;

    open spec fn view(&self) -> DeployTargetView {
        DeployTargetView { expose: self.expose, build: self.build@, replicas: self.replicas }
    }
}

/// The deployed containers of a challenge, by role.
#[derive(Debug, Clone, PartialEq)]
pub struct DeployOptions {
    pub web: Option<DeployTarget>,
    pub admin: Option<DeployTarget>,
    pub nc: Option<DeployTarget>,
}

/// The mathematical value of a [`DeployOptions`].
#[verifier::ext_equal]
pub struct DeployOptionsView {
    pub web: Option<DeployTargetView>,
    pub admin: Option<DeployTargetView>,
    pub nc: Option<DeployTargetView>,
}

impl DeployOptionsView {
    /// What holds of every set of targets that validation lets through.
    pub open spec fn well_formed(self) -> bool {
        &&& self.web matches Some(target) ==> target.well_formed()
        &&& self.admin matches Some(target) ==> target.well_formed()
        &&& self.nc matches Some(target) ==> target.well_formed()
    }

    /// The targets that are there, each with its role: web, then admin,
    /// then nc.
    pub open spec fn targets(self) -> Seq<(DeployTargetView, DeployTargetType)> {
        let web = match self.web {
            Some(target) => seq![(target, DeployTargetType::Web)],
            None => seq![],
        };
        let admin = match self.admin {
            Some(target) => seq![(target, DeployTargetType::Admin)],
            None => seq![],
        };
        let nc = match self.nc {
            Some(target) => seq![(target, DeployTargetType::Nc)],
            None => seq![],
        };
        web + admin + nc
    }
}

impl View for DeployOptions {
    type V = DeployOptionsView;

    open spec fn view(&self) -> DeployOptionsView {
        DeployOptionsView {
            web: opt_view(self.web),
            admin: opt_view(self.admin),
            nc: opt_view(self.nc),
        }
    }
}

/// The views of targets with their roles, one for one.
pub open spec fn target_views(targets: Seq<(DeployTarget, DeployTargetType)>) -> Seq<
    (DeployTargetView, DeployTargetType),
> {
    Seq::new(targets.len(), |i: int| (targets[i].0@, targets[i].1))
}

impl DeployOptions {
    /// The targets that are there, each with its role: web, then admin,
    /// then nc.
    pub fn into_iter(self) -> (targets: Vec<(DeployTarget, DeployTargetType)>)
        ensures
            target_views(targets@) == self@.targets(),
    {
        let mut targets: Vec<(DeployTarget, DeployTargetType)> = Vec::new();
        if let Some(target) = self.web {
            targets.push((target, DeployTargetType::Web));
        }
        if let Some(target) = self.admin {
            targets.push((target, DeployTargetType::Admin));
        }
        if let Some(target) = self.nc {
            targets.push((target, DeployTargetType::Nc));
        }
        assert(target_views(targets@) =~= self@.targets());
        targets
    }
}

impl DeployTargetView {
    /// The target as a short line for a reader: the port, the protocol, how
    /// many copies run, and where it is built from.
    pub open spec fn rendered(self) -> Seq<char> {
        "Target< "@ + decimal(self.expose.spec_port() as nat) + " "@ + (if self.expose is Tcp {
            "(tcp)"@
        } else {
            "(udp)"@
        }) + " ("@ + decimal(self.replicas as nat) + " "@ + (if self.replicas == 1 {
            "replica"@
        } else {
            "replicas"@
        }) + ") "@ + " @  "@ + self.build + ">"@
    }
}

impl DeployTarget {
    /// The target as a short line for a reader.
    pub fn render(&self) -> (text: String)
        ensures
            text@ == self@.rendered(),
    {
        let mut text = "Target< ".to_owned();
        text.append(decimal_string(self.expose.port() as u64).as_str());
        text.append(" ");
        if self.expose.is_tcp() {
            text.append("(tcp)");
        } else {
            text.append("(udp)");
        }
        text.append(" (");
        text.append(decimal_string(self.replicas as u64).as_str());
        text.append(" ");
        if self.replicas == 1 {
            text.append("replica");
        } else {
            text.append("replicas");
        }
        text.append(") ");
        text.append(" @  ");
        text.append(self.build.as_str());
        text.append(">");
        text
    }
}

} // verus!
