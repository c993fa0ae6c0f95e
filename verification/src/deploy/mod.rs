//! The `deploy` attribute: the containers that a challenge runs in.

pub mod error;
pub mod structs;

use vstd::prelude::*;
use crate::fields::{optional_str, read_optional_str, read_required_str, required_str, FieldError};
use crate::node::{entry_trees, get, lookup, Node, Tree};
use crate::structs::{get_type, type_of, ValueType};
use crate::text::{
    decimal, decimal_u32, first_index, is_relative, is_relative_path, lemma_decimal_round_trip,
    lemma_first_index_is, parse_u32, split_at_first, split_once, str_eq, without_plus,
};
use crate::views::{failure, opt_view, result_view};
use self::error::{
    BuildError, BuildErrorView, DeployOptionsError, DeployOptionsErrorView,
    DeploymentTargetOptionsError, DeploymentTargetOptionsErrorView, ExposeError, ExposeErrorView,
};
use self::structs::{
    expose_text, DeployOptions, DeployOptionsView, DeployTarget, DeployTargetView, NetworkProtocol,
};

verus! {

/// How many copies of a target run where it does not say.
pub const DEFAULT_REPLICAS: u8 = 1;

/// Whether `name` names a protocol, and whether that protocol is TCP.
pub open spec fn protocol_named(name: Seq<char>) -> Option<bool> {
    if name == "udp"@ {
        Some(false)
    } else if name == "tcp"@ {
        Some(true)
    } else {
        None
    }
}

/// What the text `<port>/<protocol>` exposes. The text is split at its
/// first `/`. The port is an unsigned integer of thirty-two bits in decimal,
/// the protocol `tcp` or `udp`. A text without `/` is of bad format; in any
/// other text each side is judged on its own.
pub open spec fn expose_of(text: Seq<char>) -> Result<NetworkProtocol, ExposeErrorView> {
    match split_once(text, '/') {
        None => Err(ExposeErrorView::BadFormat(text)),
        Some((port, protocol)) => match (decimal_u32(port), protocol_named(protocol)) {
            (Some(port), Some(tcp)) => Ok(
                if tcp {
                    NetworkProtocol::Tcp(port)
                } else {
                    NetworkProtocol::Udp(port)
                },
            ),
            (port, tcp) => Err(
                ExposeErrorView::BadParts { data: text, port: port is None, protocol: tcp is None },
            ),
        },
    }
}

/// The text of an exposure is read back as that exposure.
pub proof fn lemma_expose_round_trip(expose: NetworkProtocol)
    ensures
        expose_of(expose_text(expose)) == Ok::<NetworkProtocol, ExposeErrorView>(expose),
{
    let port = decimal(expose.spec_port() as nat);
    let text = expose_text(expose);
    lemma_decimal_round_trip(expose.spec_port() as nat);
    reveal_strlit("/tcp");
    reveal_strlit("/udp");
    reveal_strlit("tcp");
    reveal_strlit("udp");
    let tail = if expose is Tcp {
        "/tcp"@
    } else {
        "/udp"@
    };
    let name = if expose is Tcp {
        "tcp"@
    } else {
        "udp"@
    };
    assert(text == port + tail);
    assert(text[port.len() as int] == '/');
    assert forall|i: int| 0 <= i < port.len() implies text[i] != '/' by {
        assert(text[i] == port[i]);
    }
    lemma_first_index_is(text, '/', port.len() as int);
    assert(text.subrange(0, port.len() as int) == port);
    assert(text.subrange(port.len() as int + 1, text.len() as int) == name);
    assert(without_plus(port) == port);
    assert("tcp"@[0] != "udp"@[0]);
}

/// Reads the text `<port>/<protocol>` of an exposure.
pub fn parse_expose(expose: &str) -> (parsed: Result<NetworkProtocol, ExposeError>)
    ensures
        expose_of(expose@) == (match parsed {
            Ok(protocol) => Ok(protocol),
            Err(error) => Err(error@),
        }),
{
    let (port, protocol) = match split_at_first(expose, '/') {
        Some(sides) => sides,
        None => {
            return Err(ExposeError::BadFormat(expose.to_owned()));
        },
    };
    let port = parse_u32(port);
    let protocol_is_tcp = if str_eq(protocol, "udp") {
        Some(false)
    } else if str_eq(protocol, "tcp") {
        Some(true)
    } else {
        None
    };
    match (port, protocol_is_tcp) {
        (Some(port), Some(protocol_is_tcp)) => Ok(
            if protocol_is_tcp {
                NetworkProtocol::Tcp(port)
            } else {
                NetworkProtocol::Udp(port)
            },
        ),
        (port, protocol_is_tcp) => Err(
            ExposeError::BadParts {
                data: expose.to_owned(),
                port: port.is_none(),
                protocol: protocol_is_tcp.is_none(),
            },
        ),
    }
}

/// What a target exposes: what the string under `expose` says. A target
/// without `expose` misses it; one whose `expose` is no string fails with
/// the kind found there.
pub open spec fn expose_part(entries: Seq<(Tree, Tree)>) -> Result<NetworkProtocol, ExposeErrorView> {
    match required_str(entries, "expose"@) {
        Ok(text) => expose_of(text),
        Err(FieldError::Missing) => Err(ExposeErrorView::Missing),
        Err(FieldError::WrongType(kind)) => Err(ExposeErrorView::BadType(kind)),
    }
}

/// Where a target is built from: the relative path under `src`, and the
/// current directory where there is no `src`.
pub open spec fn build_part(entries: Seq<(Tree, Tree)>) -> Result<Seq<char>, BuildErrorView> {
    match optional_str(entries, "src"@) {
        Ok(None) => Ok("."@),
        Ok(Some(path)) => if is_relative_path(path) {
            Ok(path)
        } else {
            Err(BuildErrorView::NotRelative(path))
        },
        Err(FieldError::WrongType(kind)) => Err(BuildErrorView::BadType(kind)),
        Err(FieldError::Missing) => Ok("."@),
    }
}

/// How many copies of a target run: the integer under `replicas`, which is
/// at least 1 and at most 255. What stands there otherwise fails with its
/// kind.
pub open spec fn replicas_part(entries: Seq<(Tree, Tree)>) -> Result<Option<u8>, ValueType> {
    match lookup(entries, "replicas"@) {
        None => Ok(None),
        Some(node) => match node.as_u64() {
            Some(count) => if 1 <= count <= 255 {
                Ok(Some(count as u8))
            } else {
                Err(type_of(node))
            },
            None => Err(type_of(node)),
        },
    }
}

/// The target that the node `tree` describes, or what is wrong with it. The
/// node has to be a map; each part of it is judged on its own. A target
/// that does not say how many copies run has one.
pub open spec fn target_of(tree: Tree) -> Result<DeployTargetView, DeploymentTargetOptionsErrorView> {
    match tree.as_mapping() {
        None => Err(DeploymentTargetOptionsErrorView::BadBaseType(type_of(tree))),
        Some(entries) => {
            let expose = expose_part(entries);
            let replicas = replicas_part(entries);
            let build = build_part(entries);
            if expose is Ok && replicas is Ok && build is Ok {
                Ok(
                    DeployTargetView {
                        expose: expose->Ok_0,
                        build: build->Ok_0,
                        replicas: match replicas->Ok_0 {
                            Some(count) => count,
                            None => DEFAULT_REPLICAS,
                        },
                    },
                )
            } else {
                Err(
                    DeploymentTargetOptionsErrorView::Parts {
                        expose: failure(expose),
                        replicas_invalid: failure(replicas),
                        build: failure(build),
                    },
                )
            }
        },
    }
}

/// Every target that validation lets through runs at least once and is
/// built from a relative path.
pub proof fn lemma_target_well_formed(tree: Tree)
    ensures
        target_of(tree) matches Ok(target) ==> target.well_formed(),
{
    reveal_strlit(".");
}

/// What a target exposes.
fn get_expose(mapping: &Vec<(Node, Node)>) -> (expose: Result<NetworkProtocol, ExposeError>)
    ensures
        expose_part(entry_trees(mapping@)) == (match expose {
            Ok(protocol) => Ok(protocol),
            Err(error) => Err(error@),
        }),
{
    match read_required_str(mapping, "expose") {
        Ok(text) => parse_expose(text),
        Err(FieldError::Missing) => Err(ExposeError::Missing),
        Err(FieldError::WrongType(kind)) => Err(ExposeError::BadType(kind)),
    }
}

/// Where a target is built from.
fn get_build(mapping: &Vec<(Node, Node)>) -> (build: Result<String, BuildError>)
    ensures
        result_view(build) == build_part(entry_trees(mapping@)),
{
    match read_optional_str(mapping, "src") {
        Ok(None) => Ok(".".to_owned()),
        Ok(Some(path)) => if is_relative(path) {
            Ok(path.to_owned())
        } else {
            Err(BuildError::NotRelative(path.to_owned()))
        },
        Err(FieldError::WrongType(kind)) => Err(BuildError::BadType(kind)),
        Err(FieldError::Missing) => Ok(".".to_owned()),
    }
}

/// How many copies of a target run, where it says.
fn get_replicas(mapping: &Vec<(Node, Node)>) -> (replicas: Result<Option<u8>, ValueType>)
    ensures
        replicas == replicas_part(entry_trees(mapping@)),
{
    match get(mapping, "replicas") {
        None => Ok(None),
        Some(node) => match node.as_u64() {
            Some(count) => if 1 <= count && count <= 255 {
                Ok(Some(count as u8))
            } else {
                Err(get_type(node))
            },
            None => Err(get_type(node)),
        },
    }
}

/// The target that `value` describes, or what is wrong with it.
pub fn parse_deploy_target(value: &Node) -> (target: Result<
    DeployTarget,
    DeploymentTargetOptionsError,
>)
    ensures
        result_view(target) == target_of(value@),
{
    let mapping = match value.as_mapping() {
        Some(mapping) => mapping,
        None => {
            return Err(DeploymentTargetOptionsError::BadBaseType(get_type(value)));
        },
    };
    let expose = get_expose(mapping);
    let build = get_build(mapping);
    let replicas = get_replicas(mapping);
    match (expose, replicas, build) {
        (Ok(expose), Ok(replicas), Ok(build)) => Ok(
            DeployTarget {
                expose,
                replicas: match replicas {
                    Some(count) => count,
                    None => DEFAULT_REPLICAS,
                },
                build,
            },
        ),
        (expose, replicas, build) => Err(
            DeploymentTargetOptionsError::Parts {
                expose: expose.err(),
                replicas_invalid: replicas.err(),
                build: build.err(),
            },
        ),
    }
}

/// The target under `key`, where the map holds that key.
pub open spec fn optional_target(entries: Seq<(Tree, Tree)>, key: Seq<char>) -> Result<
    Option<DeployTargetView>,
    DeploymentTargetOptionsErrorView,
> {
    match lookup(entries, key) {
        None => Ok(None),
        Some(node) => match target_of(node) {
            Ok(target) => Ok(Some(target)),
            Err(error) => Err(error),
        },
    }
}

/// The targets that the node `tree` describes, or what is wrong with it.
/// The node has to be a map. It may hold a target under each of `web`,
/// `admin` and `nc`; each one that is there is judged on its own.
pub open spec fn deploy_of(tree: Tree) -> Result<DeployOptionsView, DeployOptionsErrorView> {
    match tree.as_mapping() {
        None => Err(DeployOptionsErrorView::BadBaseType(type_of(tree))),
        Some(entries) => {
            let web = optional_target(entries, "web"@);
            let admin = optional_target(entries, "admin"@);
            let nc = optional_target(entries, "nc"@);
            if web is Ok && admin is Ok && nc is Ok {
                Ok(DeployOptionsView { web: web->Ok_0, admin: admin->Ok_0, nc: nc->Ok_0 })
            } else {
                Err(
                    DeployOptionsErrorView::Parts {
                        web: failure(web),
                        admin: failure(admin),
                        nc: failure(nc),
                    },
                )
            }
        },
    }
}

/// Every set of targets that validation lets through holds well-formed
/// targets only.
pub proof fn lemma_deploy_well_formed(tree: Tree)
    ensures
        deploy_of(tree) matches Ok(options) ==> options.well_formed(),
{
    if let Some(entries) = tree.as_mapping() {
        if let Some(node) = lookup(entries, "web"@) {
            lemma_target_well_formed(node);
        }
        if let Some(node) = lookup(entries, "admin"@) {
            lemma_target_well_formed(node);
        }
        if let Some(node) = lookup(entries, "nc"@) {
            lemma_target_well_formed(node);
        }
    }
}

/// The target under `key`, where the map holds that key.
fn get_target(mapping: &Vec<(Node, Node)>, key: &str) -> (target: Result<
    Option<DeployTarget>,
    DeploymentTargetOptionsError,
>)
    ensures
        optional_target(entry_trees(mapping@), key@) == (match target {
            Ok(target) => Ok(opt_view(target)),
            Err(error) => Err(error@),
        }),
{
    match get(mapping, key) {
        None => Ok(None),
        Some(node) => match parse_deploy_target(node) {
            Ok(target) => Ok(Some(target)),
            Err(error) => Err(error),
        },
    }
}

/// The targets that `value` describes, or what is wrong with it.
pub fn parse_deploy(value: &Node) -> (options: Result<DeployOptions, DeployOptionsError>)
    ensures
        result_view(options) == deploy_of(value@),
{
    let mapping = match value.as_mapping() {
        Some(mapping) => mapping,
        None => {
            return Err(DeployOptionsError::BadBaseType(get_type(value)));
        },
    };
    let web = get_target(mapping, "web");
    let admin = get_target(mapping, "admin");
    let nc = get_target(mapping, "nc");
    match (web, admin, nc) {
        (Ok(web), Ok(admin), Ok(nc)) => Ok(DeployOptions { web, admin, nc }),
        (web, admin, nc) => Err(
            DeployOptionsError::Parts {
                web: Box::new(web.err()),
                admin: Box::new(admin.err()),
                nc: Box::new(nc.err()),
            },
        ),
    }
}

} // verus!
