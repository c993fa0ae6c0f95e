//! Validation of challenge definition documents.
//!
//! A document is a tree of scalars, lists and maps. Every attribute of the
//! document is checked on its own, and either a fully populated
//! [`YamlShape`] comes back or a report that names each attribute that
//! failed and why.
//!
//! The library reads no file. A document may name files; [`wanted_files`]
//! says which, and validation goes by a [`Snapshot`] of what came of
//! reading them.

pub mod categories;
pub mod correctness;
pub mod deploy;
pub mod fields;
pub mod files;
pub mod flag;
pub mod lists;
pub mod node;
pub mod shape;
pub mod snapshot;
pub mod source;
pub mod structs;
pub mod text;
pub mod verify;
pub mod views;

pub use categories::CategorySet;
pub use correctness::{Correctness, NoRules, PolicyError};
pub use deploy::structs::DeployOptions;
pub use files::structs::File;
pub use node::Node;
pub use shape::YamlShape;
pub use snapshot::{ReadOutcome, Snapshot};
pub use source::parse_document;
pub use structs::{YamlAttribVerifyError, YamlVerifyError};
pub use verify::{conclude, verify_document, verify_yaml, wanted_files};

use vstd::prelude::*;

verus! {

/// The names of the categories that are known where nothing else is said,
/// with a comma between each two of them.
pub const DEFAULT_CATEGORIES: &'static str = "misc,binex,foren,crypto,webex,rev";

} // verus!
