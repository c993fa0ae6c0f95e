//! The `flag` attribute: the secret that solves a challenge.

use vstd::prelude::*;
use vstd::string::*;
use crate::fields::{read_required_str, required_str, FieldError};
use crate::node::{Node, Tree};
use crate::snapshot::{read, text_from_utf8, text_of, ReadOutcome, Reading, Snapshot};
use crate::structs::{get_type, kind_text, type_of, ValueType};
use crate::text::{is_relative, is_relative_path};
use crate::views::{opt_view, result_view};

verus! {

/// The secret of a challenge: written in the document itself, or held in a
/// file that the document names.
#[derive(Debug, Clone, PartialEq)]
pub enum Flag {
    /// The secret as the document writes it.
    String(String),
    /// The path of the file that holds the secret, and the secret.
    File(String, String),
}

/// The mathematical value of a [`Flag`].
#[verifier::ext_equal]
pub enum FlagView {
    String(Seq<char>),
    File(Seq<char>, Seq<char>),
}

impl FlagView {
    /// The secret.
    pub open spec fn text(self) -> Seq<char> {
        match self {
            FlagView::String(text) => text,
            FlagView::File(_, text) => text,
        }
    }

    /// The path of the file that holds the secret, where one does.
    pub open spec fn path(self) -> Option<Seq<char>> {
        match self {
            FlagView::String(_) => None,
            FlagView::File(path, _) => Some(path),
        }
    }
}

impl View for Flag {
    type V = FlagView;

    open spec fn view(&self) -> FlagView {
        match self {
            Flag::String(text) => FlagView::String(text@),
            Flag::File(path, text) => FlagView::File(path@, text@),
        }
    }
}

impl Flag {
    /// The secret.
    pub fn as_str(&self) -> (text: &str)
        ensures
            text@ == self@.text(),
    {
        match self {
            Flag::String(text) => text.as_str(),
            Flag::File(_, text) => text.as_str(),
        }
    }

    /// The path of the file that holds the secret, where one does.
    pub fn path(&self) -> (path: Option<&str>)
        ensures
            path matches Some(p) ==> self@.path() == Some(p@),
            path is None ==> self@.path() is None,
    {
        match self {
            Flag::File(path, _) => Some(path.as_str()),
            Flag::String(_) => None,
        }
    }
}

/// What is wrong with the `flag` attribute.
#[derive(Debug, Clone, PartialEq)]
pub enum FlagError {
    /// The attribute is neither a string nor a map, but a node of this kind.
    BadType(ValueType),
    /// The text is no flag.
    BadString(String),
    /// The text names no relative path.
    BadPath(String),
    /// The attribute is a map without `file`.
    MappingNeedsFile,
    /// The attribute is a map, and its `file` is not a string but a node of
    /// this kind.
    FileNotString(ValueType),
    /// There is no file at this path.
    FileMissing(String),
    /// The file at this path could not be read as text.
    OsError(String),
    /// The document has no `flag`.
    MissingKey,
}

/// The mathematical value of a [`FlagError`].
#[verifier::ext_equal]
pub enum FlagErrorView {
    BadType(ValueType),
    BadString(Seq<char>),
    BadPath(Seq<char>),
    MappingNeedsFile,
    FileNotString(ValueType),
    FileMissing(Seq<char>),
    OsError(Seq<char>),
    MissingKey,
}

impl View for FlagError {
    type V = FlagErrorView;

    open spec fn view(&self) -> FlagErrorView {
        match self {
            FlagError::BadType(kind) => FlagErrorView::BadType(*kind),
            FlagError::BadString(text) => FlagErrorView::BadString(text@),
            FlagError::BadPath(text) => FlagErrorView::BadPath(text@),
            FlagError::MappingNeedsFile => FlagErrorView::MappingNeedsFile,
            FlagError::FileNotString(kind) => FlagErrorView::FileNotString(*kind),
            FlagError::FileMissing(path) => FlagErrorView::FileMissing(path@),
            FlagError::OsError(path) => FlagErrorView::OsError(path@),
            FlagError::MissingKey => FlagErrorView::MissingKey,
        }
    }
}

impl Default for FlagError {
    fn default() -> (error: FlagError)
        ensures
            error@ == FlagErrorView::MissingKey,
    {
        FlagError::MissingKey
    }
}

/// The secret that the file at `path` holds, as `files` has it: the whole
/// of the file, as text. A file that is not valid UTF-8 cannot be read.
pub open spec fn file_flag(path: Seq<char>, files: Seq<(Seq<char>, Reading)>) -> Result<
    FlagView,
    FlagErrorView,
> {
    match read(files, path) {
        Reading::Found(bytes) => match text_of(bytes) {
            Some(text) => Ok(FlagView::File(path, text)),
            None => Err(FlagErrorView::OsError(path)),
        },
        Reading::Missing => Err(FlagErrorView::FileMissing(path)),
        Reading::Failed => Err(FlagErrorView::OsError(path)),
    }
}

/// The secret that the file at `path` holds, as `files` has it.
pub fn get_file_flag(path: String, files: &Snapshot) -> (flag: Result<Flag, FlagError>)
    ensures
        result_view(flag) == file_flag(path@, files@),
{
    match files.read(path.as_str()) {
        ReadOutcome::Found(bytes) => match text_from_utf8(bytes) {
            Some(text) => Ok(Flag::File(path, text)),
            None => Err(FlagError::OsError(path)),
        },
        ReadOutcome::Missing => Err(FlagError::FileMissing(path)),
        ReadOutcome::Failed => Err(FlagError::OsError(path)),
    }
}

/// The path of the file that a flag node asks for: the relative path under
/// `file`, where the node is a map.
pub open spec fn flag_path(tree: Tree) -> Option<Seq<char>> {
    if tree.as_str() is Some {
        None
    } else {
        match tree.as_mapping() {
            None => None,
            Some(entries) => match required_str(entries, "file"@) {
                Ok(path) => if is_relative_path(path) {
                    Some(path)
                } else {
                    None
                },
                Err(_) => None,
            },
        }
    }
}

/// The secret that the node `tree` gives, or what is wrong with it. A
/// string is the secret itself. A map names, by the string under `file`,
/// a relative path to the file that holds the secret. A map without
/// `file` and a map whose `file` is no string fail differently.
pub open spec fn flag_of(tree: Tree, files: Seq<(Seq<char>, Reading)>) -> Result<
    FlagView,
    FlagErrorView,
> {
    match tree.as_str() {
        Some(text) => Ok(FlagView::String(text)),
        None => match tree.as_mapping() {
            None => Err(FlagErrorView::BadType(type_of(tree))),
            Some(entries) => match required_str(entries, "file"@) {
                Err(FieldError::Missing) => Err(FlagErrorView::MappingNeedsFile),
                Err(FieldError::WrongType(kind)) => Err(FlagErrorView::FileNotString(kind)),
                Ok(path) => if is_relative_path(path) {
                    file_flag(path, files)
                } else {
                    Err(FlagErrorView::BadPath(path))
                },
            },
        },
    }
}

/// The secret that `value` gives, with the file it may name as `files` has
/// it, or what is wrong with `value`.
pub fn get_flag(value: &Node, files: &Snapshot) -> (flag: Result<Flag, FlagError>)
    ensures
        result_view(flag) == flag_of(value@, files@),
{
    if let Some(text) = value.as_str() {
        Ok(Flag::String(text.to_owned()))
    } else if let Some(mapping) = value.as_mapping() {
        match read_required_str(mapping, "file") {
            Err(FieldError::Missing) => Err(FlagError::MappingNeedsFile),
            Err(FieldError::WrongType(kind)) => Err(FlagError::FileNotString(kind)),
            Ok(file) => if is_relative(file) {
                get_file_flag(file.to_owned(), files)
            } else {
                Err(FlagError::BadPath(file.to_owned()))
            },
        }
    } else {
        Err(FlagError::BadType(get_type(value)))
    }
}

/// The path of the file that the flag node `value` asks for, where it asks
/// for one.
pub fn flag_request(value: &Node) -> (path: Option<String>)
    ensures
        opt_view(path) == flag_path(value@),
{
    if value.as_str().is_some() {
        return None;
    }
    match value.as_mapping() {
        None => None,
        Some(mapping) => match read_required_str(mapping, "file") {
            Ok(file) => if is_relative(file) {
                Some(file.to_owned())
            } else {
                None
            },
            Err(_) => None,
        },
    }
}

/// A flag depends on the files only by the path that it asks for: two
/// snapshots that say the same of that path make the same of the flag. A
/// flag that the document writes out asks for none.
pub proof fn lemma_flag_reads_wanted_only(
    tree: Tree,
    files: Seq<(Seq<char>, Reading)>,
    others: Seq<(Seq<char>, Reading)>,
)
    requires
        flag_path(tree) matches Some(path) ==> read(files, path) == read(others, path),
    ensures
        flag_of(tree, files) == flag_of(tree, others),
        tree.as_str() is Some ==> flag_path(tree) is None,
{
}

impl FlagView {
    /// The flag as a short line for a reader.
    pub open spec fn rendered(self) -> Seq<char> {
        match self {
            FlagView::String(text) => "Flag< "@ + text + " >"@,
            FlagView::File(path, text) => "Flag< "@ + text + " (@ "@ + path + ") >"@,
        }
    }
}

impl Flag {
    /// The flag as a short line for a reader.
    pub fn render(&self) -> (text: String)
        ensures
            text@ == self@.rendered(),
    {
        match self {
            Flag::String(secret) => {
                let mut text = "Flag< ".to_owned();
                text.append(secret.as_str());
                text.append(" >");
                text
            },
            Flag::File(path, secret) => {
                let mut text = "Flag< ".to_owned();
                text.append(secret.as_str());
                text.append(" (@ ");
                text.append(path.as_str());
                text.append(") >");
                text
            },
        }
    }
}

impl FlagErrorView {
    /// What the error says to the author of the document.
    pub open spec fn message(self) -> Seq<char> {
        match self {
            FlagErrorView::BadType(kind) => "Flag should be a list, not "@ + kind_text(
                kind.type_enum,
            ) + "."@,
            FlagErrorView::BadString(text) => "The string "@ + text + " is not a valid flag."@,
            FlagErrorView::BadPath(text) => "The string "@ + text
                + " is not a valid path. (hint: If you want to define a flag with a string, use `flag: <input>`)"@,
            FlagErrorView::MappingNeedsFile =>
                "If you are going to define a flag via a file, you need to have `file: <path>` as an entry under `flag`. (<path> must be a string)"@,
            FlagErrorView::FileNotString(kind) =>
                "The `file` entry under `flag` must be a string, not "@ + kind_text(kind.type_enum)
                + "."@,
            FlagErrorView::MissingKey => "You have to define `flag`."@,
            FlagErrorView::FileMissing(path) => "There is no file at "@ + path + "."@,
            FlagErrorView::OsError(path) => "There was an issue opening the file at "@ + path
                + ". Maybe check permissions?"@,
        }
    }
}

impl FlagError {
    /// What the error says to the author of the document.
    pub fn message(&self) -> (text: String)
        ensures
            text@ == self@.message(),
    {
        match self {
            FlagError::BadType(kind) => {
                let mut text = "Flag should be a list, not ".to_owned();
                text.append(kind.get_str());
                text.append(".");
                text
            },
            FlagError::BadString(found) => {
                let mut text = "The string ".to_owned();
                text.append(found.as_str());
                text.append(" is not a valid flag.");
                text
            },
            FlagError::BadPath(found) => {
                let mut text = "The string ".to_owned();
                text.append(found.as_str());
                text.append(
                    " is not a valid path. (hint: If you want to define a flag with a string, use `flag: <input>`)",
                );
                text
            },
            FlagError::MappingNeedsFile =>
                "If you are going to define a flag via a file, you need to have `file: <path>` as an entry under `flag`. (<path> must be a string)".to_owned(),
            FlagError::FileNotString(kind) => {
                let mut text = "The `file` entry under `flag` must be a string, not ".to_owned();
                text.append(kind.get_str());
                text.append(".");
                text
            },
            FlagError::MissingKey => "You have to define `flag`.".to_owned(),
            FlagError::FileMissing(path) => {
                let mut text = "There is no file at ".to_owned();
                text.append(path.as_str());
                text.append(".");
                text
            },
            FlagError::OsError(path) => {
                let mut text = "There was an issue opening the file at ".to_owned();
                text.append(path.as_str());
                text.append(". Maybe check permissions?");
                text
            },
        }
    }
}

} // verus!
