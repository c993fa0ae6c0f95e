//! What can be wrong with the `deploy` attribute.

use vstd::prelude::*;
use vstd::string::*;
use crate::structs::{kind_text, ValueType};
use crate::views::opt_view;

verus! {

/// What is wrong with the `expose` of a target.
#[derive(Debug, Clone, PartialEq)]
pub enum ExposeError {
    /// The target has no `expose`.
    Missing,
    /// `expose` is not a string but a node of this kind.
    BadType(ValueType),
    /// The text is not of the form `<port>/<protocol>`: it holds no `/`.
    BadFormat(String),
    /// The text `data` holds a `/`; `port` says that what stands before it is
    /// no port, `protocol` that what stands behind it is no protocol.
    BadParts { data: String, port: bool, protocol: bool },
}

/// The mathematical value of an [`ExposeError`].
#[verifier::ext_equal]
pub enum ExposeErrorView {
    Missing,
    BadType(ValueType),
    BadFormat(Seq<char>),
    BadParts { data: Seq<char>, port: bool, protocol: bool },
}

impl View for ExposeError {
    type V = ExposeErrorView;

    open spec fn view(&self) -> ExposeErrorView {
        match self {
            ExposeError::Missing => ExposeErrorView::Missing,
            ExposeError::BadType(kind) => ExposeErrorView::BadType(*kind),
            ExposeError::BadFormat(text) => ExposeErrorView::BadFormat(text@),
            ExposeError::BadParts { data, port, protocol } => ExposeErrorView::BadParts {
                data: data@,
                port: *port,
                protocol: *protocol,
            },
        }
    }
}

/// What is wrong with the build source of a target.
#[derive(Debug, Clone, PartialEq)]
pub enum BuildError {
    /// `src` is not a string but a node of this kind.
    BadType(ValueType),
    /// `src` is a string that names no path.
    NotPath(String),
    /// `src` is a path that is not relative.
    NotRelative(String),
}

/// The mathematical value of a [`BuildError`].
#[verifier::ext_equal]
pub enum BuildErrorView {
    BadType(ValueType),
    NotPath(Seq<char>),
    NotRelative(Seq<char>),
}

impl View for BuildError {
    type V = BuildErrorView;

    open spec fn view(&self) -> BuildErrorView {
        match self {
            BuildError::BadType(kind) => BuildErrorView::BadType(*kind),
            BuildError::NotPath(text) => BuildErrorView::NotPath(text@),
            BuildError::NotRelative(path) => BuildErrorView::NotRelative(path@),
        }
    }
}

/// What is wrong with one target.
#[derive(Debug, Clone, PartialEq)]
pub enum DeploymentTargetOptionsError {
    /// The target is not a map but a node of this kind.
    BadBaseType(ValueType),
    /// The target is a map; each part that is wrong holds its error. For
    /// `replicas` that is the kind of the node found there.
    Parts {
        expose: Option<ExposeError>,
        replicas_invalid: Option<ValueType>,
        build: Option<BuildError>,
    },
}

/// The mathematical value of a [`DeploymentTargetOptionsError`].
#[verifier::ext_equal]
pub enum DeploymentTargetOptionsErrorView {
    BadBaseType(ValueType),
    Parts {
        expose: Option<ExposeErrorView>,
        replicas_invalid: Option<ValueType>,
        build: Option<BuildErrorView>,
    },
}

impl View for DeploymentTargetOptionsError {
    type V = DeploymentTargetOptionsErrorView;

    open spec fn view(&self) -> DeploymentTargetOptionsErrorView {
        match self {
            DeploymentTargetOptionsError::BadBaseType(kind) => DeploymentTargetOptionsErrorView::BadBaseType(
                *kind,
            ),
            DeploymentTargetOptionsError::Parts {
                expose,
                replicas_invalid,
                build,
            } => DeploymentTargetOptionsErrorView::Parts {
                expose: opt_view(*expose),
                replicas_invalid: *replicas_invalid,
                build: opt_view(*build),
            },
        }
    }
}

/// What is wrong with the `deploy` attribute.
#[derive(Debug, Clone, PartialEq)]
pub enum DeployOptionsError {
    /// The attribute is a map; each target that is wrong holds its error.
    Parts {
        web: Box<Option<DeploymentTargetOptionsError>>,
        admin: Box<Option<DeploymentTargetOptionsError>>,
        nc: Box<Option<DeploymentTargetOptionsError>>,
    },
    /// The attribute is not a map but a node of this kind.
    BadBaseType(ValueType),
}

/// The mathematical value of a [`DeployOptionsError`].
#[verifier::ext_equal]
pub enum DeployOptionsErrorView {
    Parts {
        web: Option<DeploymentTargetOptionsErrorView>,
        admin: Option<DeploymentTargetOptionsErrorView>,
        nc: Option<DeploymentTargetOptionsErrorView>,
    },
    BadBaseType(ValueType),
}

impl View for DeployOptionsError {
    type V = DeployOptionsErrorView;

    open spec fn view(&self) -> DeployOptionsErrorView {
        match self {
            DeployOptionsError::Parts { web, admin, nc } => DeployOptionsErrorView::Parts {
                web: opt_view(**web),
                admin: opt_view(**admin),
                nc: opt_view(**nc),
            },
            DeployOptionsError::BadBaseType(kind) => DeployOptionsErrorView::BadBaseType(*kind),
        }
    }
}

impl ExposeErrorView {
    /// What the error says to the author of the document.
    pub open spec fn message(self) -> Seq<char> {
        match self {
            ExposeErrorView::Missing => "You must specify what port and protocol to expose."@,
            ExposeErrorView::BadType(kind) => "The `expose` value must be a string, not "@
                + kind_text(kind.type_enum) + "."@,
            ExposeErrorView::BadFormat(text) =>
                "The `expose` value must follos the format <port>/<protocol>. `"@ + text
                + "` does not match. (Protocols are `udp` and `tcp`)"@,
            ExposeErrorView::BadParts { data, port, protocol } => if port && protocol {
                "The port must be a number and the protocol must be `tcp` or `udp`. ("@ + data
                    + " was recieved)"@
            } else if port {
                "The port must be a number. ("@ + data + " was recieved)"@
            } else {
                "The protocol must be `tcp` or `udp`. ("@ + data + " was recieved)"@
            },
        }
    }
}

impl ExposeError {
    /// What the error says to the author of the document.
    pub fn message(&self) -> (text: String)
        ensures
            text@ == self@.message(),
    {
        match self {
            ExposeError::Missing => "You must specify what port and protocol to expose.".to_owned(),
            ExposeError::BadType(kind) => {
                let mut text = "The `expose` value must be a string, not ".to_owned();
                text.append(kind.get_str());
                text.append(".");
                text
            },
            ExposeError::BadFormat(found) => {
                let mut text =
                    "The `expose` value must follos the format <port>/<protocol>. `".to_owned();
                text.append(found.as_str());
                text.append("` does not match. (Protocols are `udp` and `tcp`)");
                text
            },
            ExposeError::BadParts { data, port, protocol } => {
                let mut text = if *port && *protocol {
                    "The port must be a number and the protocol must be `tcp` or `udp`. (".to_owned()
                } else if *port {
                    "The port must be a number. (".to_owned()
                } else {
                    "The protocol must be `tcp` or `udp`. (".to_owned()
                };
                text.append(data.as_str());
                text.append(" was recieved)");
                text
            },
        }
    }
}

impl BuildErrorView {
    /// What the error says to the author of the document.
    pub open spec fn message(self) -> Seq<char> {
        match self {
            BuildErrorView::BadType(kind) => "Build should be a relative path, not "@ + kind_text(
                kind.type_enum,
            ) + ".\n"@,
            BuildErrorView::NotPath(text) => "Build should be a VALID relative path. \""@ + text
                + "\" is not a valid path.\n"@,
            BuildErrorView::NotRelative(path) => "Build should be a RELATIVE path. \""@ + path
                + "\" is not a relative path.\n"@,
        }
    }
}

impl BuildError {
    /// What the error says to the author of the document.
    pub fn message(&self) -> (text: String)
        ensures
            text@ == self@.message(),
    {
        match self {
            BuildError::BadType(kind) => {
                let mut text = "Build should be a relative path, not ".to_owned();
                text.append(kind.get_str());
                text.append(".\n");
                text
            },
            BuildError::NotPath(found) => {
                let mut text = "Build should be a VALID relative path. \"".to_owned();
                text.append(found.as_str());
                text.append("\" is not a valid path.\n");
                text
            },
            BuildError::NotRelative(path) => {
                let mut text = "Build should be a RELATIVE path. \"".to_owned();
                text.append(path.as_str());
                text.append("\" is not a relative path.\n");
                text
            },
        }
    }
}

impl DeploymentTargetOptionsErrorView {
    /// What the error says to the author of the document: one line for each
    /// part of the target that is wrong.
    pub open spec fn message(self) -> Seq<char> {
        match self {
            DeploymentTargetOptionsErrorView::BadBaseType(kind) =>
                "A target should be a map with values for `expose` and (optionally) `replicas`, not "@
                + kind_text(kind.type_enum) + ".\n"@,
            DeploymentTargetOptionsErrorView::Parts { expose, replicas_invalid, build } => {
                let head = "There were issues with certain parts of this target:\n"@;
                let with_expose = match expose {
                    Some(error) => head + "            "@ + error.message() + "\n"@,
                    None => head,
                };
                let with_replicas = match replicas_invalid {
                    Some(kind) => with_expose
                        + "            `replicas` should be a number from 1 - 255, not "@
                        + kind_text(kind.type_enum) + ".\n"@,
                    None => with_expose,
                };
                match build {
                    Some(error) => with_replicas + "            "@ + error.message() + ".\n"@,
                    None => with_replicas,
                }
            },
        }
    }
}

impl DeploymentTargetOptionsError {
    /// What the error says to the author of the document.
    pub fn message(&self) -> (text: String)
        ensures
            text@ == self@.message(),
    {
        match self {
            DeploymentTargetOptionsError::BadBaseType(kind) => {
                let mut text =
                    "A target should be a map with values for `expose` and (optionally) `replicas`, not ".to_owned();
                text.append(kind.get_str());
                text.append(".\n");
                text
            },
            DeploymentTargetOptionsError::Parts { expose, replicas_invalid, build } => {
                let mut text = "There were issues with certain parts of this target:\n".to_owned();
                if let Some(error) = expose {
                    text.append("            ");
                    text.append(error.message().as_str());
                    text.append("\n");
                }
                if let Some(kind) = replicas_invalid {
                    text.append("            `replicas` should be a number from 1 - 255, not ");
                    text.append(kind.get_str());
                    text.append(".\n");
                }
                if let Some(error) = build {
                    text.append("            ");
                    text.append(error.message().as_str());
                    text.append(".\n");
                }
                text
            },
        }
    }
}

impl DeployOptionsErrorView {
    /// What the error says to the author of the document: one entry for
    /// each target that is wrong, under the name of the target.
    pub open spec fn message(self) -> Seq<char> {
        match self {
            DeployOptionsErrorView::BadBaseType(kind) =>
                "Deploy should be a map of `web`, `admin`, and `nc`, not "@ + kind_text(
                kind.type_enum,
            ) + ".\n"@,
            DeployOptionsErrorView::Parts { web, admin, nc } => {
                let head = "There were issues with certain deployment targets:\n"@;
                let with_web = match web {
                    Some(error) => head + "        web:   "@ + error.message() + "\n"@,
                    None => head,
                };
                let with_admin = match admin {
                    Some(error) => with_web + "        admin: "@ + error.message() + "\n"@,
                    None => with_web,
                };
                match nc {
                    Some(error) => with_admin + "        nc:    "@ + error.message() + "\n"@,
                    None => with_admin,
                }
            },
        }
    }
}

impl DeployOptionsError {
    /// What the error says to the author of the document.
    pub fn message(&self) -> (text: String)
        ensures
            text@ == self@.message(),
    {
        match self {
            DeployOptionsError::BadBaseType(kind) => {
                let mut text = "Deploy should be a map of `web`, `admin`, and `nc`, not ".to_owned();
                text.append(kind.get_str());
                text.append(".\n");
                text
            },
            DeployOptionsError::Parts { web, admin, nc } => {
                let mut text = "There were issues with certain deployment targets:\n".to_owned();
                if let Some(error) = &**web {
                    text.append("        web:   ");
                    text.append(error.message().as_str());
                    text.append("\n");
                }
                if let Some(error) = &**admin {
                    text.append("        admin: ");
                    text.append(error.message().as_str());
                    text.append("\n");
                }
                if let Some(error) = &**nc {
                    text.append("        nc:    ");
                    text.append(error.message().as_str());
                    text.append("\n");
                }
                text
            },
        }
    }
}

} // verus!
