//! Reading a document out of its text.

use vstd::prelude::*;
use crate::node::{Node, Tree};
use crate::structs::{YamlVerifyError, YamlVerifyErrorView};
use crate::views::result_view;

verus! {

/// [`serde_yaml::Value`]: a parsed document, carried as it is. Nothing is
/// known of what is inside but by `value_tree`.
#[verifier::external_type_specification]
#[verifier::external_body]
pub struct ExYamlValue(serde_yaml::Value);

/// [`serde_yaml::Error`]: why a text is no document, carried as it is.
#[verifier::external_type_specification]
#[verifier::external_body]
pub struct ExYamlError(serde_yaml::Error);

/// The document that a text stands for, and why it stands for none where
/// it does: what [`serde_yaml::from_str`] reads out of the text.
pub uninterp spec fn text_tree(text: Seq<char>) -> Result<Tree, Seq<char>>;

/// What an error of the reader says: its `Display`.
pub uninterp spec fn error_reason(error: serde_yaml::Error) -> Seq<char>;

/// The document that a parsed value holds: its variants, one for one as
/// those of a [`Tree`].
pub uninterp spec fn value_tree(value: serde_yaml::Value) -> Tree;

/// [`serde_yaml::from_str`], read as a [`serde_yaml::Value`]: the document
/// that the text stands for, and an error where it stands for none. The same
/// text gives the same document, or the same error.
#[verifier::external_body]
fn yaml_from_str(text: &str) -> (parsed: Result<serde_yaml::Value, serde_yaml::Error>)
    ensures
        text_tree(text@) == (match parsed {
            Ok(value) => Ok(value_tree(value)),
            Err(error) => Err(error_reason(error)),
        }),
{
    serde_yaml::from_str(text)
}

/// The variants of [`serde_yaml::Value`], one for one as those of [`Node`].
/// Of a number, only [`serde_yaml::Number::as_u64`] is kept; of a tagged
/// value, only the value.
#[verifier::external_body]
fn node_from_value(value: &serde_yaml::Value) -> (node: Node)
    ensures
        node@ == value_tree(*value),
{
    match value {
        serde_yaml::Value::Null => Node::Null,
        serde_yaml::Value::Bool(b) => Node::Bool(*b),
        serde_yaml::Value::Number(n) => Node::Number(n.as_u64()),
        serde_yaml::Value::String(s) => Node::String(s.clone()),
        serde_yaml::Value::Sequence(items) => Node::Sequence(items.iter().map(node_from_value).collect()),
        serde_yaml::Value::Mapping(entries) => Node::Mapping(
            entries.iter().map(|(k, v)| (node_from_value(k), node_from_value(v))).collect(),
        ),
        serde_yaml::Value::Tagged(tagged) => Node::Tagged(Box::new(node_from_value(&tagged.value))),
    }
}

/// The `Display` of [`serde_yaml::Error`]: what the error says, with the
/// place in the text where it has one.
#[verifier::external_body]
fn error_text(error: &serde_yaml::Error) -> (reason: String)
    ensures
        reason@ == error_reason(*error),
{
    error.to_string()
}

/// What reading makes of `text`: the document that the text stands for,
/// and `Unparsable` with the reader's reason where it stands for none.
pub open spec fn read_of(text: Seq<char>) -> Result<Tree, YamlVerifyErrorView> {
    match text_tree(text) {
        Ok(tree) => Ok(tree),
        Err(reason) => Err(YamlVerifyErrorView::Unparsable(reason)),
    }
}

/// The document that `text` stands for.
pub fn parse_document(text: &str) -> (document: Result<Node, YamlVerifyError>)
    ensures
        result_view(document) == read_of(text@),
{
    match yaml_from_str(text) {
        Ok(value) => Ok(node_from_value(&value)),
        Err(error) => Err(YamlVerifyError::Unparsable(error_text(&error))),
    }
}

} // verus!
