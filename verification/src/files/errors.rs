//! What can be wrong with the `files` attribute.

use vstd::prelude::*;
use vstd::string::*;
use crate::structs::{kind_text, ValueType};
use crate::text::{decimal, decimal_string};
use crate::views::{opt_view, opt_views};

verus! {

/// What is wrong with the source path of a file entry.
#[derive(Debug, Clone, PartialEq)]
pub enum FilePathErr {
    /// The entry has no `src`.
    NoExist,
    /// `src` is not a string but a node of this kind.
    NotStr(ValueType),
    /// `src` is a string that names no path.
    BadPath(String),
}

/// The mathematical value of a [`FilePathErr`].
#[verifier::ext_equal]
pub enum FilePathErrView {
    NoExist,
    NotStr(ValueType),
    BadPath(Seq<char>),
}

impl View for FilePathErr {
    type V = FilePathErrView;

    open spec fn view(&self) -> FilePathErrView {
        match self {
            FilePathErr::NoExist => FilePathErrView::NoExist,
            FilePathErr::NotStr(kind) => FilePathErrView::NotStr(*kind),
            FilePathErr::BadPath(text) => FilePathErrView::BadPath(text@),
        }
    }
}

/// What is wrong with the container of a file entry.
#[derive(Debug, Clone, PartialEq)]
pub enum ContainerTypeErr {
    /// `container` is not a string but a node of this kind.
    NotStr(ValueType),
    /// `container` is a string that names no container.
    BadType(String),
}

/// The mathematical value of a [`ContainerTypeErr`].
#[verifier::ext_equal]
pub enum ContainerTypeErrView {
    NotStr(ValueType),
    BadType(Seq<char>),
}

impl View for ContainerTypeErr {
    type V = ContainerTypeErrView;

    open spec fn view(&self) -> ContainerTypeErrView {
        match self {
            ContainerTypeErr::NotStr(kind) => ContainerTypeErrView::NotStr(*kind),
            ContainerTypeErr::BadType(text) => ContainerTypeErrView::BadType(text@),
        }
    }
}

/// Why the contents of a file could not be had.
#[derive(Debug, Clone, PartialEq)]
pub enum DataReadErr {
    /// There is no file at this path.
    DoesntExist(String),
    /// The file at this path could not be read.
    OsError(String),
}

/// The mathematical value of a [`DataReadErr`].
#[verifier::ext_equal]
pub enum DataReadErrView {
    DoesntExist(Seq<char>),
    OsError(Seq<char>),
}

impl View for DataReadErr {
    type V = DataReadErrView;

    open spec fn view(&self) -> DataReadErrView {
        match self {
            DataReadErr::DoesntExist(path) => DataReadErrView::DoesntExist(path@),
            DataReadErr::OsError(path) => DataReadErrView::OsError(path@),
        }
    }
}

/// What is wrong with one entry of the file list.
#[derive(Debug, Clone, PartialEq)]
pub enum FileParseErr {
    /// The entry is not a map but a node of this kind.
    ItemNotMapping(ValueType),
    /// The entry is a map; each part that is wrong holds its error.
    Parts {
        path: Option<FilePathErr>,
        visible: Option<ValueType>,
        alias: Option<ValueType>,
        container: Option<ContainerTypeErr>,
        data: Option<DataReadErr>,
    },
}

/// The mathematical value of a [`FileParseErr`].
#[verifier::ext_equal]
pub enum FileParseErrView {
    ItemNotMapping(ValueType),
    Parts {
        path: Option<FilePathErrView>,
        visible: Option<ValueType>,
        alias: Option<ValueType>,
        container: Option<ContainerTypeErrView>,
        data: Option<DataReadErrView>,
    },
}

impl View for FileParseErr {
    type V = FileParseErrView;

    open spec fn view(&self) -> FileParseErrView {
        match self {
            FileParseErr::ItemNotMapping(kind) => FileParseErrView::ItemNotMapping(*kind),
            FileParseErr::Parts { path, visible, alias, container, data } => FileParseErrView::Parts {
                path: opt_view(*path),
                visible: *visible,
                alias: *alias,
                container: opt_view(*container),
                data: opt_view(*data),
            },
        }
    }
}

/// What is wrong with the `files` attribute.
#[derive(Debug, Clone, PartialEq)]
pub enum FileErrors {
    /// The attribute is not a list but a node of this kind.
    BadBaseType(ValueType),
    /// The attribute is a list. There is one item for each of its entries,
    /// in their order: the error of an entry that is wrong, and nothing for
    /// one that is right.
    EntryErrors(Vec<Option<FileParseErr>>),
}

/// The mathematical value of a [`FileErrors`].
#[verifier::ext_equal]
pub enum FileErrorsView {
    BadBaseType(ValueType),
    EntryErrors(Seq<Option<FileParseErrView>>),
}

impl View for FileErrors {
    type V = FileErrorsView;

    open spec fn view(&self) -> FileErrorsView {
        match self {
            FileErrors::BadBaseType(kind) => FileErrorsView::BadBaseType(*kind),
            FileErrors::EntryErrors(errors) => FileErrorsView::EntryErrors(opt_views(errors@)),
        }
    }
}

impl FilePathErrView {
    /// What the error says to the author of the document.
    pub open spec fn message(self) -> Seq<char> {
        match self {
            FilePathErrView::NoExist => "You must define `src`"@,
            FilePathErrView::NotStr(kind) => "The source path must be a filepath, not "@
                + kind_text(kind.type_enum),
            FilePathErrView::BadPath(text) => "The source `"@ + text + "` is not a valid filepath"@,
        }
    }
}

impl FilePathErr {
    /// What the error says to the author of the document.
    pub fn message(&self) -> (text: String)
        ensures
            text@ == self@.message(),
    {
        match self {
            FilePathErr::NoExist => "You must define `src`".to_owned(),
            FilePathErr::NotStr(kind) => {
                let mut text = "The source path must be a filepath, not ".to_owned();
                text.append(kind.get_str());
                text
            },
            FilePathErr::BadPath(found) => {
                let mut text = "The source `".to_owned();
                text.append(found.as_str());
                text.append("` is not a valid filepath");
                text
            },
        }
    }
}

impl ContainerTypeErrView {
    /// What the error says to the author of the document.
    pub open spec fn message(self) -> Seq<char> {
        match self {
            ContainerTypeErrView::NotStr(kind) =>
                "The container must be `nc`, `admin`, or `web`, not "@ + kind_text(kind.type_enum),
            ContainerTypeErrView::BadType(text) =>
                "The container must be `nc`, `admin`, or `web`. \""@ + text
                + "\" is not one of those."@,
        }
    }
}

impl ContainerTypeErr {
    /// What the error says to the author of the document.
    pub fn message(&self) -> (text: String)
        ensures
            text@ == self@.message(),
    {
        match self {
            ContainerTypeErr::NotStr(kind) => {
                let mut text = "The container must be `nc`, `admin`, or `web`, not ".to_owned();
                text.append(kind.get_str());
                text
            },
            ContainerTypeErr::BadType(found) => {
                let mut text = "The container must be `nc`, `admin`, or `web`. \"".to_owned();
                text.append(found.as_str());
                text.append("\" is not one of those.");
                text
            },
        }
    }
}

impl DataReadErrView {
    /// What the error says to the author of the document.
    pub open spec fn message(self) -> Seq<char> {
        match self {
            DataReadErrView::DoesntExist(path) => "The file path `"@ + path + "` doesn't exist."@,
            DataReadErrView::OsError(path) => "There was an issue reading the file at `"@ + path
                + "`. Maybe check permissions?"@,
        }
    }
}

impl DataReadErr {
    /// What the error says to the author of the document.
    pub fn message(&self) -> (text: String)
        ensures
            text@ == self@.message(),
    {
        match self {
            DataReadErr::DoesntExist(path) => {
                let mut text = "The file path `".to_owned();
                text.append(path.as_str());
                text.append("` doesn't exist.");
                text
            },
            DataReadErr::OsError(path) => {
                let mut text = "There was an issue reading the file at `".to_owned();
                text.append(path.as_str());
                text.append("`. Maybe check permissions?");
                text
            },
        }
    }
}

impl FileParseErrView {
    /// What the error says to the author of the document: one line for each
    /// part of the entry that is wrong.
    pub open spec fn message(self) -> Seq<char> {
        match self {
            FileParseErrView::ItemNotMapping(kind) => "each file should be a map of attributes, not "@
                + kind_text(kind.type_enum) + "."@,
            FileParseErrView::Parts { path, visible, alias, container, data } => {
                let head = "There were issues with certain parts of this file entry:\n"@;
                let with_path = match path {
                    Some(error) => head + "            "@ + error.message() + "\n"@,
                    None => head,
                };
                let with_visible = match visible {
                    Some(kind) => with_path
                        + "            The visibility of a file must be a boolean or undefined, not "@
                        + kind_text(kind.type_enum) + "\n"@,
                    None => with_path,
                };
                let with_alias = match alias {
                    Some(kind) => with_visible
                        + "            The display name of a file must be a string or undefined, not "@
                        + kind_text(kind.type_enum) + "\n"@,
                    None => with_visible,
                };
                let with_container = match container {
                    Some(error) => with_alias + "            "@ + error.message() + "\n"@,
                    None => with_alias,
                };
                match data {
                    Some(error) => with_container + "            "@ + error.message() + "\n"@,
                    None => with_container,
                }
            },
        }
    }
}

impl FileParseErr {
    /// What the error says to the author of the document.
    pub fn message(&self) -> (text: String)
        ensures
            text@ == self@.message(),
    {
        match self {
            FileParseErr::ItemNotMapping(kind) => {
                let mut text = "each file should be a map of attributes, not ".to_owned();
                text.append(kind.get_str());
                text.append(".");
                text
            },
            FileParseErr::Parts { path, visible, alias, container, data } => {
                let mut text = "There were issues with certain parts of this file entry:\n".to_owned();
                if let Some(error) = path {
                    text.append("            ");
                    text.append(error.message().as_str());
                    text.append("\n");
                }
                if let Some(kind) = visible {
                    text.append(
                        "            The visibility of a file must be a boolean or undefined, not ",
                    );
                    text.append(kind.get_str());
                    text.append("\n");
                }
                if let Some(kind) = alias {
                    text.append(
                        "            The display name of a file must be a string or undefined, not ",
                    );
                    text.append(kind.get_str());
                    text.append("\n");
                }
                if let Some(error) = container {
                    text.append("            ");
                    text.append(error.message().as_str());
                    text.append("\n");
                }
                if let Some(error) = data {
                    text.append("            ");
                    text.append(error.message().as_str());
                    text.append("\n");
                }
                text
            },
        }
    }
}

/// One line for each entry that is wrong: its place in the list, counted
/// from zero, and what is wrong with it.
pub open spec fn entry_lines(errors: Seq<Option<FileParseErrView>>) -> Seq<char>
    decreases errors.len(),
{
    if errors.len() == 0 {
        seq![]
    } else {
        match errors.last() {
            Some(error) => entry_lines(errors.drop_last()) + "        "@ + decimal(
                (errors.len() - 1) as nat,
            ) + ": "@ + error.message() + "\n"@,
            None => entry_lines(errors.drop_last()),
        }
    }
}

impl FileErrorsView {
    /// What the error says to the author of the document.
    pub open spec fn message(self) -> Seq<char> {
        match self {
            FileErrorsView::BadBaseType(kind) => "Files should be a list, not "@ + kind_text(
                kind.type_enum,
            ) + "."@,
            FileErrorsView::EntryErrors(errors) => "Some entries under `files` are invalid:\n"@
                + entry_lines(errors),
        }
    }
}

impl FileErrors {
    /// What the error says to the author of the document.
    pub fn message(&self) -> (text: String)
        ensures
            text@ == self@.message(),
    {
        match self {
            FileErrors::BadBaseType(kind) => {
                let mut text = "Files should be a list, not ".to_owned();
                text.append(kind.get_str());
                text.append(".");
                text
            },
            FileErrors::EntryErrors(errors) => {
                let ghost all = opt_views(errors@);
                let ghost head = "Some entries under `files` are invalid:\n"@;
                let mut text = "Some entries under `files` are invalid:\n".to_owned();
                let mut at: usize = 0;
                assert(text@ =~= head + entry_lines(all.take(0)));
                while at < errors.len()
                    invariant
                        at <= errors.len(),
                        all == opt_views(errors@),
                        head == "Some entries under `files` are invalid:\n"@,
                        text@ == head + entry_lines(all.take(at as int)),
                    decreases errors.len() - at,
                {
                    let ghost before = all.take(at as int);
                    let ghost after = all.take(at + 1);
                    assert(after.drop_last() == before);
                    assert(after.last() == opt_view(errors@[at as int]));
                    if let Some(error) = &errors[at] {
                        text.append("        ");
                        text.append(decimal_string(at as u64).as_str());
                        text.append(": ");
                        text.append(error.message().as_str());
                        text.append("\n");
                        assert(text@ =~= head + entry_lines(after));
                    }
                    at += 1;
                }
                assert(all.take(at as int) == all);
                text
            },
        }
    }
}

} // verus!
