//! The rules of correctness that a valid document is held to.
//!
//! The rules are not part of this library: whoever validates a document
//! brings them.

use vstd::prelude::*;
use crate::shape::YamlShape;

verus! {

/// Why the rules of correctness turned a document down.
#[derive(Debug, Clone, PartialEq)]
pub struct PolicyError {
    pub reason: String,
}

impl View for PolicyError {
    type V = Seq<char>;

    open spec fn view(&self) -> Seq<char> {
        self.reason@
    }
}

/// Rules that a document has to meet beyond the shape of its attributes.
pub trait Correctness {
    /// Holds `shape` against the rules.
    fn verify(&self, shape: &YamlShape) -> Result<(), PolicyError>;
}

/// The rules that every document meets.
#[derive(Debug, Default, Clone, Copy, PartialEq, Eq)]
pub struct NoRules;

impl Correctness for NoRules {
    fn verify(&self, shape: &YamlShape) -> (verdict: Result<(), PolicyError>)
        ensures
            verdict is Ok,
    {
        Ok(())
    }
}

} // verus!
