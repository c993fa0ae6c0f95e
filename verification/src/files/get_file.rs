//! One entry of the file list.

use vstd::prelude::*;
use crate::fields::{optional_str, read_optional_str, read_required_str, required_str, FieldError};
use crate::node::{entry_trees, get, lookup, Node, Tree};
use crate::snapshot::{read, ReadOutcome, Reading, Snapshot};
use crate::structs::{get_type, type_of, ValueType};
use crate::views::{failure, opt_view, result_view};
use super::errors::{
    ContainerTypeErr, ContainerTypeErrView, DataReadErr, DataReadErrView, FileParseErr,
    FileParseErrView, FilePathErr, FilePathErrView,
};
use super::structs::{container_named, ContainerType, File, FileView};

verus! {

/// The node under the first of two keys that a map holds.
pub open spec fn first_of_two(entries: Seq<(Tree, Tree)>, first: Seq<char>, second: Seq<char>) -> Option<
    Tree,
> {
    match lookup(entries, first) {
        Some(node) => Some(node),
        None => lookup(entries, second),
    }
}

/// The source path of an entry: the string under `src`.
pub open spec fn path_part(entries: Seq<(Tree, Tree)>) -> Result<Seq<char>, FilePathErrView> {
    match required_str(entries, "src"@) {
        Ok(text) => Ok(text),
        Err(FieldError::Missing) => Err(FilePathErrView::NoExist),
        Err(FieldError::WrongType(kind)) => Err(FilePathErrView::NotStr(kind)),
    }
}

/// Whether an entry says that players see the file: the boolean under `vis`
/// or, where there is no `vis`, under `visible`.
pub open spec fn visible_part(entries: Seq<(Tree, Tree)>) -> Result<Option<bool>, ValueType> {
    match first_of_two(entries, "vis"@, "visible"@) {
        None => Ok(None),
        Some(node) => match node.as_bool() {
            Some(visible) => Ok(Some(visible)),
            None => Err(type_of(node)),
        },
    }
}

/// The node that names the file for display: the one under `dest`, else
/// under `alias`, else under `as`.
pub open spec fn alias_node(entries: Seq<(Tree, Tree)>) -> Option<Tree> {
    match lookup(entries, "dest"@) {
        Some(node) => Some(node),
        None => first_of_two(entries, "alias"@, "as"@),
    }
}

/// The name under which an entry shows the file.
pub open spec fn alias_part(entries: Seq<(Tree, Tree)>) -> Result<Option<Seq<char>>, ValueType> {
    match alias_node(entries) {
        None => Ok(None),
        Some(node) => match node.as_str() {
            Some(text) => Ok(Some(text)),
            None => Err(type_of(node)),
        },
    }
}

/// The container that an entry binds the file to: the one that the string
/// under `container` names.
pub open spec fn container_part(entries: Seq<(Tree, Tree)>) -> Result<
    Option<ContainerType>,
    ContainerTypeErrView,
> {
    match optional_str(entries, "container"@) {
        Ok(None) => Ok(None),
        Ok(Some(name)) => match container_named(name) {
            Some(container) => Ok(Some(container)),
            None => Err(ContainerTypeErrView::BadType(name)),
        },
        Err(FieldError::WrongType(kind)) => Err(ContainerTypeErrView::NotStr(kind)),
        Err(FieldError::Missing) => Ok(None),
    }
}

/// The path whose contents an entry asks for. An entry that is bound to a
/// container asks for none, and neither does one without a source path.
pub open spec fn wanted_path(entries: Seq<(Tree, Tree)>) -> Option<Seq<char>> {
    if container_part(entries) matches Ok(Some(_)) {
        None
    } else {
        match path_part(entries) {
            Ok(path) => Some(path),
            Err(_) => None,
        }
    }
}

/// The contents of the file of an entry, as `files` has them.
pub open spec fn data_part(entries: Seq<(Tree, Tree)>, files: Seq<(Seq<char>, Reading)>) -> Result<
    Option<Seq<u8>>,
    DataReadErrView,
> {
    match wanted_path(entries) {
        None => Ok(None),
        Some(path) => match read(files, path) {
            Reading::Found(bytes) => Ok(Some(bytes)),
            Reading::Missing => Err(DataReadErrView::DoesntExist(path)),
            Reading::Failed => Err(DataReadErrView::OsError(path)),
        },
    }
}

/// The file that an entry describes, or each part of the entry that is
/// wrong. Every part is judged on its own. A file is visible unless the
/// entry says otherwise.
pub open spec fn file_of(entries: Seq<(Tree, Tree)>, files: Seq<(Seq<char>, Reading)>) -> Result<
    FileView,
    FileParseErrView,
> {
    let path = path_part(entries);
    let visible = visible_part(entries);
    let alias = alias_part(entries);
    let container = container_part(entries);
    let data = data_part(entries, files);
    if path is Ok && visible is Ok && alias is Ok && container is Ok && data is Ok {
        Ok(
            FileView {
                path: path->Ok_0,
                visible: match visible->Ok_0 {
                    Some(visible) => visible,
                    None => true,
                },
                alias: alias->Ok_0,
                data: data->Ok_0,
                container: container->Ok_0,
            },
        )
    } else {
        Err(
            FileParseErrView::Parts {
                path: failure(path),
                visible: failure(visible),
                alias: failure(alias),
                container: failure(container),
                data: failure(data),
            },
        )
    }
}

/// The source path of an entry.
fn get_path(mapping: &Vec<(Node, Node)>) -> (path: Result<String, FilePathErr>)
    ensures
        result_view(path) == path_part(entry_trees(mapping@)),
{
    match read_required_str(mapping, "src") {
        Ok(text) => Ok(text.to_owned()),
        Err(FieldError::Missing) => Err(FilePathErr::NoExist),
        Err(FieldError::WrongType(kind)) => Err(FilePathErr::NotStr(kind)),
    }
}

/// Whether an entry says that players see the file.
fn get_visible(mapping: &Vec<(Node, Node)>) -> (visible: Result<Option<bool>, ValueType>)
    ensures
        visible == visible_part(entry_trees(mapping@)),
{
    let node = match get(mapping, "vis") {
        Some(node) => Some(node),
        None => get(mapping, "visible"),
    };
    match node {
        None => Ok(None),
        Some(node) => match node.as_bool() {
            Some(visible) => Ok(Some(visible)),
            None => Err(get_type(node)),
        },
    }
}

/// The name under which an entry shows the file.
fn get_alias(mapping: &Vec<(Node, Node)>) -> (alias: Result<Option<String>, ValueType>)
    ensures
        alias_part(entry_trees(mapping@)) == (match alias {
            Ok(name) => Ok(opt_view(name)),
            Err(kind) => Err(kind),
        }),
{
    let node = match get(mapping, "dest") {
        Some(node) => Some(node),
        None => match get(mapping, "alias") {
            Some(node) => Some(node),
            None => get(mapping, "as"),
        },
    };
    match node {
        None => Ok(None),
        Some(node) => match node.as_str() {
            Some(text) => Ok(Some(text.to_owned())),
            None => Err(get_type(node)),
        },
    }
}

/// The container that an entry binds the file to.
fn get_container(mapping: &Vec<(Node, Node)>) -> (container: Result<
    Option<ContainerType>,
    ContainerTypeErr,
>)
    ensures
        container_part(entry_trees(mapping@)) == (match container {
            Ok(bound) => Ok(bound),
            Err(error) => Err(error@),
        }),
{
    match read_optional_str(mapping, "container") {
        Ok(None) => Ok(None),
        Ok(Some(name)) => match ContainerType::try_from_str(name) {
            Some(container) => Ok(Some(container)),
            None => Err(ContainerTypeErr::BadType(name.to_owned())),
        },
        Err(FieldError::WrongType(kind)) => Err(ContainerTypeErr::NotStr(kind)),
        Err(FieldError::Missing) => Ok(None),
    }
}

/// The file that the entry `mapping` describes, with its contents as `files`
/// has them, or each part of the entry that is wrong.
pub fn get_file_from_mapping(mapping: &Vec<(Node, Node)>, files: &Snapshot) -> (file: Result<
    File,
    FileParseErr,
>)
    ensures
        result_view(file) == file_of(entry_trees(mapping@), files@),
{
    let ghost entries = entry_trees(mapping@);
    let path = get_path(mapping);
    let visible = get_visible(mapping);
    let alias = get_alias(mapping);
    let container = get_container(mapping);
    let bound = match &container {
        Ok(Some(_)) => true,
        _ => false,
    };
    let data: Result<Option<Vec<u8>>, DataReadErr> = if bound {
        Ok(None)
    } else {
        match &path {
            Err(_) => Ok(None),
            Ok(path) => match files.read(path.as_str()) {
                ReadOutcome::Found(bytes) => Ok(Some(bytes)),
                ReadOutcome::Missing => Err(DataReadErr::DoesntExist(path.clone())),
                ReadOutcome::Failed => Err(DataReadErr::OsError(path.clone())),
            },
        }
    };
    assert(data_part(entries, files@) == (match data {
        Ok(bytes) => Ok(opt_view(bytes)),
        Err(error) => Err(error@),
    }));
    match (path, visible, alias, container, data) {
        (Ok(path), Ok(visible), Ok(alias), Ok(container), Ok(data)) => {
            let visible = match visible {
                Some(visible) => visible,
                None => true,
            };
            Ok(File::new(path, visible, alias, container, data))
        },
        (path, visible, alias, container, data) => Err(
            FileParseErr::Parts {
                path: path.err(),
                visible: visible.err(),
                alias: alias.err(),
                container: container.err(),
                data: data.err(),
            },
        ),
    }
}

/// The path whose contents the entry `mapping` asks for, where it asks for
/// any.
pub fn wanted(mapping: &Vec<(Node, Node)>) -> (path: Option<String>)
    ensures
        opt_view(path) == wanted_path(entry_trees(mapping@)),
{
    match get_container(mapping) {
        Ok(Some(_)) => None,
        _ => match get_path(mapping) {
            Ok(path) => Some(path),
            Err(_) => None,
        },
    }
}

/// An entry that is bound to a container asks for no contents and holds
/// none, whatever the files are: no two snapshots make a difference to it.
pub proof fn lemma_bound_entry_reads_nothing(
    entries: Seq<(Tree, Tree)>,
    files: Seq<(Seq<char>, Reading)>,
    others: Seq<(Seq<char>, Reading)>,
)
    requires
        container_part(entries) matches Ok(Some(_)),
    ensures
        wanted_path(entries) is None,
        data_part(entries, files) == Ok::<Option<Seq<u8>>, DataReadErrView>(None),
        file_of(entries, files) == file_of(entries, others),
        file_of(entries, files) matches Ok(file) ==> file.data is None,
{
}

/// An entry depends on the files only by the path that it asks for: two
/// snapshots that say the same of that path make the same of the entry.
pub proof fn lemma_entry_reads_wanted_only(
    entries: Seq<(Tree, Tree)>,
    files: Seq<(Seq<char>, Reading)>,
    others: Seq<(Seq<char>, Reading)>,
)
    requires
        wanted_path(entries) matches Some(path) ==> read(files, path) == read(others, path),
    ensures
        file_of(entries, files) == file_of(entries, others),
{
}

/// Every file that validation lets through is well formed: where a
/// container serves it, it holds no contents.
pub proof fn lemma_file_well_formed(entries: Seq<(Tree, Tree)>, files: Seq<(Seq<char>, Reading)>)
    ensures
        file_of(entries, files) matches Ok(file) ==> file.well_formed(),
{
}

} // verus!
