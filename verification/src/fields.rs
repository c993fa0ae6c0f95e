//! Reading one plain attribute out of a map.
//!
//! An attribute that is not there and an attribute of the wrong kind are
//! two different failures.

use vstd::prelude::*;
use crate::node::{entry_trees, get, lookup, Node, Tree};
use crate::structs::{get_type, type_of, ValueType};

verus! {

/// Why a plain attribute could not be read.
#[derive(Debug, Clone, Copy, PartialEq, Eq, Structural)]
pub enum FieldError {
    /// The map does not hold the key.
    Missing,
    /// The map holds a node of this kind under the key, which is not the
    /// kind that was asked for.
    WrongType(ValueType),
}

/// The string under `key`, which has to be there.
pub open spec fn required_str(entries: Seq<(Tree, Tree)>, key: Seq<char>) -> Result<
    Seq<char>,
    FieldError,
> {
    match lookup(entries, key) {
        None => Err(FieldError::Missing),
        Some(node) => match node.as_str() {
            Some(text) => Ok(text),
            None => Err(FieldError::WrongType(type_of(node))),
        },
    }
}

/// The boolean under `key`, which has to be there.
pub open spec fn required_bool(entries: Seq<(Tree, Tree)>, key: Seq<char>) -> Result<
    bool,
    FieldError,
> {
    match lookup(entries, key) {
        None => Err(FieldError::Missing),
        Some(node) => match node.as_bool() {
            Some(value) => Ok(value),
            None => Err(FieldError::WrongType(type_of(node))),
        },
    }
}

/// The non-negative integer under `key`, which has to be there.
pub open spec fn required_u64(entries: Seq<(Tree, Tree)>, key: Seq<char>) -> Result<
    u64,
    FieldError,
> {
    match lookup(entries, key) {
        None => Err(FieldError::Missing),
        Some(node) => match node.as_u64() {
            Some(value) => Ok(value),
            None => Err(FieldError::WrongType(type_of(node))),
        },
    }
}

/// What is under `key` where the key may be left out: nothing where it is
/// left out, and otherwise what the required attribute is. A key that is
/// there with a node of the wrong kind fails all the same.
pub open spec fn optional<T>(entries: Seq<(Tree, Tree)>, key: Seq<char>, required: Result<
    T,
    FieldError,
>) -> Result<Option<T>, FieldError> {
    match lookup(entries, key) {
        None => Ok(None),
        Some(_) => match required {
            Ok(value) => Ok(Some(value)),
            Err(error) => Err(error),
        },
    }
}

/// The string under `key`, where the key is there.
pub open spec fn optional_str(entries: Seq<(Tree, Tree)>, key: Seq<char>) -> Result<
    Option<Seq<char>>,
    FieldError,
> {
    optional(entries, key, required_str(entries, key))
}

/// The boolean under `key`, where the key is there.
pub open spec fn optional_bool(entries: Seq<(Tree, Tree)>, key: Seq<char>) -> Result<
    Option<bool>,
    FieldError,
> {
    optional(entries, key, required_bool(entries, key))
}

/// The non-negative integer under `key`, where the key is there.
pub open spec fn optional_u64(entries: Seq<(Tree, Tree)>, key: Seq<char>) -> Result<
    Option<u64>,
    FieldError,
> {
    optional(entries, key, required_u64(entries, key))
}

/// An attribute that may be left out never fails as missing, and is
/// nothing exactly where the key is left out.
pub proof fn lemma_optional_is_never_missing<T>(
    entries: Seq<(Tree, Tree)>,
    key: Seq<char>,
    required: Result<T, FieldError>,
)
    requires
        required == Err::<T, FieldError>(FieldError::Missing) <==> lookup(entries, key) is None,
    ensures
        optional(entries, key, required) != Err::<Option<T>, FieldError>(FieldError::Missing),
        optional(entries, key, required) == Ok::<Option<T>, FieldError>(None) <==> lookup(
            entries,
            key,
        ) is None,
{
}

/// Reads the string under `key`, which has to be there.
pub fn read_required_str<'a>(map: &'a Vec<(Node, Node)>, key: &str) -> (field: Result<
    &'a str,
    FieldError,
>)
    ensures
        required_str(entry_trees(map@), key@) == (match field {
            Ok(text) => Ok(text@),
            Err(error) => Err(error),
        }),
{
    match get(map, key) {
        None => Err(FieldError::Missing),
        Some(node) => match node.as_str() {
            Some(text) => Ok(text),
            None => Err(FieldError::WrongType(get_type(node))),
        },
    }
}

/// Reads the boolean under `key`, which has to be there.
pub fn read_required_bool(map: &Vec<(Node, Node)>, key: &str) -> (field: Result<bool, FieldError>)
    ensures
        field == required_bool(entry_trees(map@), key@),
{
    match get(map, key) {
        None => Err(FieldError::Missing),
        Some(node) => match node.as_bool() {
            Some(value) => Ok(value),
            None => Err(FieldError::WrongType(get_type(node))),
        },
    }
}

/// Reads the non-negative integer under `key`, which has to be there.
pub fn read_required_u64(map: &Vec<(Node, Node)>, key: &str) -> (field: Result<u64, FieldError>)
    ensures
        field == required_u64(entry_trees(map@), key@),
{
    match get(map, key) {
        None => Err(FieldError::Missing),
        Some(node) => match node.as_u64() {
            Some(value) => Ok(value),
            None => Err(FieldError::WrongType(get_type(node))),
        },
    }
}

/// Reads the string under `key`, where the key is there.
pub fn read_optional_str<'a>(map: &'a Vec<(Node, Node)>, key: &str) -> (field: Result<
    Option<&'a str>,
    FieldError,
>)
    ensures
        optional_str(entry_trees(map@), key@) == (match field {
            Ok(Some(text)) => Ok(Some(text@)),
            Ok(None) => Ok(None),
            Err(error) => Err(error),
        }),
{
    match read_required_str(map, key) {
        Ok(text) => Ok(Some(text)),
        Err(FieldError::Missing) => Ok(None),
        Err(error) => Err(error),
    }
}

/// Reads the boolean under `key`, where the key is there.
pub fn read_optional_bool(map: &Vec<(Node, Node)>, key: &str) -> (field: Result<
    Option<bool>,
    FieldError,
>)
    ensures
        field == optional_bool(entry_trees(map@), key@),
{
    match read_required_bool(map, key) {
        Ok(value) => Ok(Some(value)),
        Err(FieldError::Missing) => Ok(None),
        Err(error) => Err(error),
    }
}

/// Reads the non-negative integer under `key`, where the key is there.
pub fn read_optional_u64(map: &Vec<(Node, Node)>, key: &str) -> (field: Result<
    Option<u64>,
    FieldError,
>)
    ensures
        field == optional_u64(entry_trees(map@), key@),
{
    match read_required_u64(map, key) {
        Ok(value) => Ok(Some(value)),
        Err(FieldError::Missing) => Ok(None),
        Err(error) => Err(error),
    }
}

} // verus!
