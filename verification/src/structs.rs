//! The kinds of document nodes, as they are named in error reports.

use vstd::prelude::*;
use vstd::string::*;
use crate::categories::{CategoryError, CategoryErrorView};
use crate::correctness::PolicyError;
use crate::deploy::error::{DeployOptionsError, DeployOptionsErrorView};
use crate::fields::FieldError;
use crate::files::errors::{FileErrors, FileErrorsView};
use crate::flag::{FlagError, FlagErrorView};
use crate::lists::structs::{AuthorError, AuthorErrorView, HintError, HintErrorView};
use crate::node::{Node, Tree};
use crate::views::views;

verus! {

/// The kind of a document node.
#[derive(Debug, Clone, Copy, PartialEq, Eq, Structural)]
pub enum ValueTypeEnum {
    Null,
    Bool,
    Number,
    String,
    Sequence,
    Mapping,
    Tagged,
}

/// The kind of a document node, as an error report shows it.
#[derive(Debug, Clone, Copy, PartialEq, Eq, Structural)]
pub struct ValueType {
    pub type_enum: ValueTypeEnum,
}

/// The words that an error report uses for a node of kind `kind`.
pub open spec fn kind_text(kind: ValueTypeEnum) -> Seq<char> {
    match kind {
        ValueTypeEnum::Null => "`null`"@,
        ValueTypeEnum::Bool => "a boolean"@,
        ValueTypeEnum::Number => "a number"@,
        ValueTypeEnum::String => "a string"@,
        ValueTypeEnum::Sequence => "a list"@,
        ValueTypeEnum::Mapping => "a dictionary"@,
        ValueTypeEnum::Tagged => "an enum"@,
    }
}

impl ValueType {
    /// The kind of `null`.
    pub fn null() -> (kind: ValueType)
        ensures
            kind.type_enum == ValueTypeEnum::Null,
    {
        ValueType { type_enum: ValueTypeEnum::Null }
    }

    /// The kind of booleans.
    pub fn boolean() -> (kind: ValueType)
        ensures
            kind.type_enum == ValueTypeEnum::Bool,
    {
        ValueType { type_enum: ValueTypeEnum::Bool }
    }

    /// The kind of numbers.
    pub fn number() -> (kind: ValueType)
        ensures
            kind.type_enum == ValueTypeEnum::Number,
    {
        ValueType { type_enum: ValueTypeEnum::Number }
    }

    /// The kind of strings.
    pub fn string() -> (kind: ValueType)
        ensures
            kind.type_enum == ValueTypeEnum::String,
    {
        ValueType { type_enum: ValueTypeEnum::String }
    }

    /// The kind of lists.
    pub fn sequence() -> (kind: ValueType)
        ensures
            kind.type_enum == ValueTypeEnum::Sequence,
    {
        ValueType { type_enum: ValueTypeEnum::Sequence }
    }

    /// The kind of maps.
    pub fn mapping() -> (kind: ValueType)
        ensures
            kind.type_enum == ValueTypeEnum::Mapping,
    {
        ValueType { type_enum: ValueTypeEnum::Mapping }
    }

    /// The kind of nodes under a tag.
    pub fn tagged() -> (kind: ValueType)
        ensures
            kind.type_enum == ValueTypeEnum::Tagged,
    {
        ValueType { type_enum: ValueTypeEnum::Tagged }
    }

    /// The words that an error report uses for a node of this kind.
    pub fn get_str(self) -> (text: &'static str)
        ensures
            text@ == kind_text(self.type_enum),
    {
        match self.type_enum {
            ValueTypeEnum::Null => "`null`",
            ValueTypeEnum::Bool => "a boolean",
            ValueTypeEnum::Number => "a number",
            ValueTypeEnum::String => "a string",
            ValueTypeEnum::Sequence => "a list",
            ValueTypeEnum::Mapping => "a dictionary",
            ValueTypeEnum::Tagged => "an enum",
        }
    }
}

/// The kind of the node with value `tree`. A node under a tag is of the
/// kind `Tagged`, whatever the tag stands on.
pub open spec fn kind_of(tree: Tree) -> ValueTypeEnum {
    match tree {
        Tree::Null => ValueTypeEnum::Null,
        Tree::Bool(_) => ValueTypeEnum::Bool,
        Tree::Number(_) => ValueTypeEnum::Number,
        Tree::String(_) => ValueTypeEnum::String,
        Tree::Sequence(_) => ValueTypeEnum::Sequence,
        Tree::Mapping(_) => ValueTypeEnum::Mapping,
        Tree::Tagged(_) => ValueTypeEnum::Tagged,
    }
}

/// The kind of the node with value `tree`, as an error report shows it.
pub open spec fn type_of(tree: Tree) -> ValueType {
    ValueType { type_enum: kind_of(tree) }
}

/// The kind of a node.
pub fn get_type(value: &Node) -> (kind: ValueType)
    ensures
        kind == type_of(value@),
{
    let type_enum = match value {
        Node::Null => ValueTypeEnum::Null,
        Node::Bool(_) => ValueTypeEnum::Bool,
        Node::Number(_) => ValueTypeEnum::Number,
        Node::String(_) => ValueTypeEnum::String,
        Node::Sequence(_) => ValueTypeEnum::Sequence,
        Node::Mapping(_) => ValueTypeEnum::Mapping,
        Node::Tagged(_) => ValueTypeEnum::Tagged,
    };
    ValueType { type_enum }
}

/// What is wrong with one attribute of a document.
#[derive(Debug, Clone, PartialEq)]
pub enum YamlAttribVerifyError {
    Categories(CategoryError),
    Authors(AuthorError),
    Hints(HintError),
    Flag(FlagError),
    Files(FileErrors),
    Deploy(DeployOptionsError),
    /// `name` is not there, or is no string but of the kind given.
    NameNotString(FieldError),
    /// `value` is not there, or is no non-negative integer but of the kind
    /// given. A number that is negative or fractional is of the kind
    /// number.
    PointsNotInt(FieldError),
    /// `description` is not there, or is no string but of the kind given.
    DescNotString(FieldError),
    /// `visible` is not there, or is no boolean but of the kind given.
    VisNotBool(FieldError),
}

/// The mathematical value of a [`YamlAttribVerifyError`].
#[verifier::ext_equal]
pub enum YamlAttribVerifyErrorView {
    Categories(CategoryErrorView),
    Authors(AuthorErrorView),
    Hints(HintErrorView),
    Flag(FlagErrorView),
    Files(FileErrorsView),
    Deploy(DeployOptionsErrorView),
    NameNotString(FieldError),
    PointsNotInt(FieldError),
    DescNotString(FieldError),
    VisNotBool(FieldError),
}

impl View for YamlAttribVerifyError {
    type V = YamlAttribVerifyErrorView;

    open spec fn view(&self) -> YamlAttribVerifyErrorView {
        match self {
            YamlAttribVerifyError::Categories(error) => YamlAttribVerifyErrorView::Categories(error@),
            YamlAttribVerifyError::Authors(error) => YamlAttribVerifyErrorView::Authors(error@),
            YamlAttribVerifyError::Hints(error) => YamlAttribVerifyErrorView::Hints(error@),
            YamlAttribVerifyError::Flag(error) => YamlAttribVerifyErrorView::Flag(error@),
            YamlAttribVerifyError::Files(error) => YamlAttribVerifyErrorView::Files(error@),
            YamlAttribVerifyError::Deploy(error) => YamlAttribVerifyErrorView::Deploy(error@),
            YamlAttribVerifyError::NameNotString(error) => YamlAttribVerifyErrorView::NameNotString(
                *error,
            ),
            YamlAttribVerifyError::PointsNotInt(error) => YamlAttribVerifyErrorView::PointsNotInt(
                *error,
            ),
            YamlAttribVerifyError::DescNotString(error) => YamlAttribVerifyErrorView::DescNotString(
                *error,
            ),
            YamlAttribVerifyError::VisNotBool(error) => YamlAttribVerifyErrorView::VisNotBool(
                *error,
            ),
        }
    }
}

/// Why a document was turned down.
#[derive(Debug, Clone, PartialEq)]
pub enum YamlVerifyError {
    /// The text is no document; this is what its reader said of it.
    Unparsable(String),
    /// The document is not a map but a node of this kind.
    BaseNotMap(ValueType),
    /// The document is a map, and these of its attributes are wrong.
    PartErrors(Vec<YamlAttribVerifyError>),
    /// Every attribute is right, and the rules of correctness were not met.
    Correctness(PolicyError),
    /// The surroundings of the document could not be had.
    OsError,
}

/// The mathematical value of a [`YamlVerifyError`].
#[verifier::ext_equal]
pub enum YamlVerifyErrorView {
    Unparsable(Seq<char>),
    BaseNotMap(ValueType),
    PartErrors(Seq<YamlAttribVerifyErrorView>),
    Correctness(Seq<char>),
    OsError,
}

impl View for YamlVerifyError {
    type V = YamlVerifyErrorView;

    open spec fn view(&self) -> YamlVerifyErrorView {
        match self {
            YamlVerifyError::Unparsable(reason) => YamlVerifyErrorView::Unparsable(reason@),
            YamlVerifyError::BaseNotMap(kind) => YamlVerifyErrorView::BaseNotMap(*kind),
            YamlVerifyError::PartErrors(errors) => YamlVerifyErrorView::PartErrors(views(errors@)),
            YamlVerifyError::Correctness(error) => YamlVerifyErrorView::Correctness(error@),
            YamlVerifyError::OsError => YamlVerifyErrorView::OsError,
        }
    }
}

/// What the error of a plain attribute says: that the attribute `key` has
/// to be there, or that it should be what `wanted` asks for and not of the
/// kind found.
pub open spec fn field_message(error: FieldError, key: Seq<char>, wanted: Seq<char>) -> Seq<char> {
    match error {
        FieldError::Missing => "You have to define `"@ + key + "`.\n"@,
        FieldError::WrongType(kind) => wanted + kind_text(kind.type_enum) + ".\n"@,
    }
}

/// Writes what the error of a plain attribute says.
fn field_text(error: &FieldError, key: &str, wanted: &str) -> (text: String)
    ensures
        text@ == field_message(*error, key@, wanted@),
{
    match error {
        FieldError::Missing => {
            let mut text = "You have to define `".to_owned();
            text.append(key);
            text.append("`.\n");
            text
        },
        FieldError::WrongType(kind) => {
            let mut text = wanted.to_owned();
            text.append(kind.get_str());
            text.append(".\n");
            text
        },
    }
}

impl YamlAttribVerifyErrorView {
    /// What the error says to the author of the document. An attribute that
    /// is not there and one of the wrong kind say different things.
    pub open spec fn message(self) -> Seq<char> {
        match self {
            YamlAttribVerifyErrorView::NameNotString(error) => field_message(
                error,
                "name"@,
                "The name should be a string, not "@,
            ),
            YamlAttribVerifyErrorView::DescNotString(error) => field_message(
                error,
                "description"@,
                "The description should be a string, not "@,
            ),
            YamlAttribVerifyErrorView::VisNotBool(error) => field_message(
                error,
                "visible"@,
                "The visibility switch should be a boolean, not "@,
            ),
            YamlAttribVerifyErrorView::PointsNotInt(error) => if error == FieldError::WrongType(
                ValueType { type_enum: ValueTypeEnum::Number },
            ) {
                "The value should be an positive integer, not negative or fractional.\n"@
            } else {
                field_message(error, "value"@, "The value should be an positive integer, not "@)
            },
            YamlAttribVerifyErrorView::Flag(error) => error.message() + "\n"@,
            YamlAttribVerifyErrorView::Categories(error) => error.message() + "\n"@,
            YamlAttribVerifyErrorView::Authors(error) => error.message() + "\n"@,
            YamlAttribVerifyErrorView::Hints(error) => error.message() + "\n"@,
            YamlAttribVerifyErrorView::Files(error) => error.message() + "\n"@,
            YamlAttribVerifyErrorView::Deploy(error) => error.message() + "\n"@,
        }
    }
}

impl YamlAttribVerifyError {
    /// What the error says to the author of the document.
    pub fn message(&self) -> (text: String)
        ensures
            text@ == self@.message(),
    {
        match self {
            YamlAttribVerifyError::NameNotString(error) => field_text(
                error,
                "name",
                "The name should be a string, not ",
            ),
            YamlAttribVerifyError::DescNotString(error) => field_text(
                error,
                "description",
                "The description should be a string, not ",
            ),
            YamlAttribVerifyError::VisNotBool(error) => field_text(
                error,
                "visible",
                "The visibility switch should be a boolean, not ",
            ),
            YamlAttribVerifyError::PointsNotInt(error) => {
                let fractional = match error {
                    FieldError::WrongType(kind) => matches!(kind.type_enum, ValueTypeEnum::Number),
                    FieldError::Missing => false,
                };
                if fractional {
                    "The value should be an positive integer, not negative or fractional.\n".to_owned()
                } else {
                    field_text(error, "value", "The value should be an positive integer, not ")
                }
            },
            YamlAttribVerifyError::Flag(error) => {
                let mut text = error.message();
                text.append("\n");
                text
            },
            YamlAttribVerifyError::Categories(error) => {
                let mut text = error.message();
                text.append("\n");
                text
            },
            YamlAttribVerifyError::Authors(error) => {
                let mut text = error.message();
                text.append("\n");
                text
            },
            YamlAttribVerifyError::Hints(error) => {
                let mut text = error.message();
                text.append("\n");
                text
            },
            YamlAttribVerifyError::Files(error) => {
                let mut text = error.message();
                text.append("\n");
                text
            },
            YamlAttribVerifyError::Deploy(error) => {
                let mut text = error.message();
                text.append("\n");
                text
            },
        }
    }
}

/// The lines of a report: what each error says, set in by four blanks.
pub open spec fn report_lines(errors: Seq<YamlAttribVerifyErrorView>) -> Seq<char>
    decreases errors.len(),
{
    if errors.len() == 0 {
        seq![]
    } else {
        report_lines(errors.drop_last()) + "    "@ + errors.last().message()
    }
}

impl YamlVerifyErrorView {
    /// What the error says to the author of the document. A report of
    /// attributes has one entry for each attribute that is wrong.
    pub open spec fn message(self) -> Seq<char> {
        match self {
            YamlVerifyErrorView::Unparsable(reason) => "Invalid YAML:\n"@ + reason + "\n"@,
            YamlVerifyErrorView::BaseNotMap(_) => "The yaml file must have `key: value` pairs\n"@,
            YamlVerifyErrorView::PartErrors(errors) => "Yaml failed to verify:\n"@ + report_lines(
                errors,
            ),
            YamlVerifyErrorView::Correctness(reason) => reason + "\n"@,
            YamlVerifyErrorView::OsError => "An unknown error occurred\n"@,
        }
    }
}

impl YamlVerifyError {
    /// What the error says to the author of the document.
    pub fn message(&self) -> (text: String)
        ensures
            text@ == self@.message(),
    {
        match self {
            YamlVerifyError::Unparsable(reason) => {
                let mut text = "Invalid YAML:\n".to_owned();
                text.append(reason.as_str());
                text.append("\n");
                text
            },
            YamlVerifyError::BaseNotMap(_) => "The yaml file must have `key: value` pairs\n".to_owned(),
            YamlVerifyError::PartErrors(errors) => {
                let ghost all = views(errors@);
                let ghost head = "Yaml failed to verify:\n"@;
                let mut text = "Yaml failed to verify:\n".to_owned();
                let mut at: usize = 0;
                assert(text@ =~= head + report_lines(all.take(0)));
                while at < errors.len()
                    invariant
                        at <= errors.len(),
                        all == views(errors@),
                        head == "Yaml failed to verify:\n"@,
                        text@ == head + report_lines(all.take(at as int)),
                    decreases errors.len() - at,
                {
                    let ghost before = all.take(at as int);
                    let ghost after = all.take(at + 1);
                    assert(after.drop_last() == before);
                    assert(after.last() == errors@[at as int]@);
                    text.append("    ");
                    text.append(errors[at].message().as_str());
                    assert(text@ =~= head + report_lines(after));
                    at += 1;
                }
                assert(all.take(at as int) == all);
                text
            },
            YamlVerifyError::Correctness(error) => {
                let mut text = error.reason.clone();
                text.append("\n");
                text
            },
            YamlVerifyError::OsError => "An unknown error occurred\n".to_owned(),
        }
    }
}

} // verus!
