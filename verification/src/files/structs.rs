//! The files of a challenge.

use vstd::prelude::*;
use vstd::string::*;
use crate::text::str_eq;
use crate::views::views;

verus! {

/// The container that serves a file.
#[derive(Debug, Clone, Copy, PartialEq, Eq, Structural)]
pub enum ContainerType {
    Nc,
    Admin,
    Web,
    Static,
}

/// The container that `name` names, where it names one.
pub open spec fn container_named(name: Seq<char>) -> Option<ContainerType> {
    if name == "nc"@ {
        Some(ContainerType::Nc)
    } else if name == "admin"@ {
        Some(ContainerType::Admin)
    } else if name == "web"@ {
        Some(ContainerType::Web)
    } else if name == "static"@ {
        Some(ContainerType::Static)
    } else {
        None
    }
}

/// The name of a container.
pub open spec fn container_name(container: ContainerType) -> Seq<char> {
    match container {
        ContainerType::Nc => "nc"@,
        ContainerType::Admin => "admin"@,
        ContainerType::Web => "web"@,
        ContainerType::Static => "static"@,
    }
}

/// Each container is the one that its name names.
pub proof fn lemma_container_name_round_trip(container: ContainerType)
    ensures
        container_named(container_name(container)) == Some(container),
{
    reveal_strlit("nc");
    reveal_strlit("admin");
    reveal_strlit("web");
    reveal_strlit("static");
    assert("nc"@.len() == 2);
    assert("admin"@.len() == 5);
    assert("web"@.len() == 3);
    assert("static"@.len() == 6);
}

impl ContainerType {
    /// The container that `s` names, where it names one.
    pub fn try_from_str(s: &str) -> (container: Option<ContainerType>)
        ensures
            container == container_named(s@),
    {
        if str_eq(s, "nc") {
            Some(ContainerType::Nc)
        } else if str_eq(s, "admin") {
            Some(ContainerType::Admin)
        } else if str_eq(s, "web") {
            Some(ContainerType::Web)
        } else if str_eq(s, "static") {
            Some(ContainerType::Static)
        } else {
            None
        }
    }

    /// The name of this container.
    pub fn to_str(&self) -> (name: &'static str)
        ensures
            name@ == container_name(*self),
    {
        match self {
            ContainerType::Nc => "nc",
            ContainerType::Admin => "admin",
            ContainerType::Web => "web",
            ContainerType::Static => "static",
        }
    }
}

/// [`once_cell::sync::OnceCell`]: a cell that is filled at most once. Nothing
/// is known of what is inside but by `cell_value`.
#[verifier::external_type_specification]
#[verifier::external_body]
#[verifier::reject_recursive_types(T)]
pub struct ExOnceCell<T>(once_cell::sync::OnceCell<T>);

/// `Clone` for [`once_cell::sync::OnceCell`]: a cell of its own. Nothing is
/// stated of what the copy holds.
pub assume_specification<T: Clone>[ <once_cell::sync::OnceCell<T> as Clone>::clone ](
    cell: &once_cell::sync::OnceCell<T>,
) -> (copy: once_cell::sync::OnceCell<T>)
;

/// What a cell of file contents holds: the bytes it was made with, or
/// nothing.
pub uninterp spec fn cell_value(cell: once_cell::sync::OnceCell<Vec<u8>>) -> Option<Seq<u8>>;

/// [`once_cell::sync::OnceCell::new`]: a cell that holds nothing.
#[verifier::external_body]
fn cell_new() -> (cell: once_cell::sync::OnceCell<Vec<u8>>)
    ensures
        cell_value(cell) is None,
{
    once_cell::sync::OnceCell::new()
}

/// [`once_cell::sync::OnceCell::with_value`]: a cell that holds `bytes`.
#[verifier::external_body]
fn cell_with_value(bytes: Vec<u8>) -> (cell: once_cell::sync::OnceCell<Vec<u8>>)
    ensures
        cell_value(cell) == Some(bytes@),
{
    once_cell::sync::OnceCell::with_value(bytes)
}

/// [`once_cell::sync::OnceCell::get`]: what the cell holds, borrowed.
#[verifier::external_body]
fn cell_get(cell: &once_cell::sync::OnceCell<Vec<u8>>) -> (held: Option<&Vec<u8>>)
    ensures
        held matches Some(bytes) ==> cell_value(*cell) == Some(bytes@),
        held is None ==> cell_value(*cell) is None,
{
    cell.get()
}

/// [`once_cell::sync::OnceCell::into_inner`]: what the cell holds, taken out
/// of it.
#[verifier::external_body]
fn cell_into_inner(cell: once_cell::sync::OnceCell<Vec<u8>>) -> (held: Option<Vec<u8>>)
    ensures
        held matches Some(bytes) ==> cell_value(cell) == Some(bytes@),
        held is None ==> cell_value(cell) is None,
{
    cell.into_inner()
}

/// One file of a challenge.
///
/// A file that a container serves holds no contents: they are never loaded.
#[derive(Debug, Clone, PartialEq)]
pub struct File {
    path: String,
    visible: bool,
    alias: Option<String>,
    data: once_cell::sync::OnceCell<Vec<u8>>,
    container: Option<ContainerType>,
}

/// The mathematical value of a [`File`].
#[verifier::ext_equal]
pub struct FileView {
    pub path: Seq<char>,
    pub visible: bool,
    pub alias: Option<Seq<char>>,
    pub data: Option<Seq<u8>>,
    pub container: Option<ContainerType>,
}

impl FileView {
    /// What holds of every file that validation lets through: a file that
    /// a container serves holds no contents.
    pub open spec fn well_formed(self) -> bool {
        self.container is Some ==> self.data is None
    }
}

impl View for File {
    type V = FileView;

    closed spec fn view(&self) -> FileView {
        FileView {
            path: self.path@,
            visible: self.visible,
            alias: match self.alias {
                Some(alias) => Some(alias@),
                None => None,
            },
            data: cell_value(self.data),
            container: self.container,
        }
    }
}

impl File {
    /// A file with these parts; `data` is its contents where they were
    /// loaded.
    pub(crate) fn new(
        path: String,
        visible: bool,
        alias: Option<String>,
        container: Option<ContainerType>,
        data: Option<Vec<u8>>,
    ) -> (file: File)
        ensures
            file@ == (FileView {
                path: path@,
                visible,
                alias: match alias {
                    Some(alias) => Some(alias@),
                    None => None,
                },
                data: match data {
                    Some(bytes) => Some(bytes@),
                    None => None,
                },
                container,
            }),
    {
        let data = match data {
            Some(bytes) => cell_with_value(bytes),
            None => cell_new(),
        };
        File { path, visible, alias, data, container }
    }

    /// Where the file lies, as the document writes it.
    pub fn path(&self) -> (path: &str)
        ensures
            path@ == self@.path,
    {
        self.path.as_str()
    }

    /// Whether players see the file.
    pub fn visible(&self) -> (visible: bool)
        ensures
            visible == self@.visible,
    {
        self.visible
    }

    /// The name under which the file is shown, where it has one.
    pub fn alias(&self) -> (alias: Option<&str>)
        ensures
            alias matches Some(name) ==> self@.alias == Some(name@),
            alias is None ==> self@.alias is None,
    {
        match &self.alias {
            Some(alias) => Some(alias.as_str()),
            None => None,
        }
    }

    /// The container that serves the file, where one does.
    pub fn container(&self) -> (container: Option<ContainerType>)
        ensures
            container == self@.container,
    {
        self.container
    }

    /// The contents of the file, where they were loaded.
    pub fn data(&self) -> (data: Option<&[u8]>)
        ensures
            data matches Some(bytes) ==> self@.data == Some(bytes@),
            data is None ==> self@.data is None,
    {
        match cell_get(&self.data) {
            Some(bytes) => Some(bytes.as_slice()),
            None => None,
        }
    }

    /// The contents of the file, where they were loaded, taken out of it.
    pub fn data_vec(self) -> (data: Option<Vec<u8>>)
        ensures
            data matches Some(bytes) ==> self@.data == Some(bytes@),
            data is None ==> self@.data is None,
    {
        cell_into_inner(self.data)
    }

    /// A copy of the contents of the file, where they were loaded.
    pub fn data_vec_cloned(&self) -> (data: Option<Vec<u8>>)
        ensures
            data matches Some(bytes) ==> self@.data == Some(bytes@),
            data is None ==> self@.data is None,
    {
        match cell_get(&self.data) {
            Some(bytes) => Some(crate::snapshot::copy_bytes(bytes)),
            None => None,
        }
    }
}

/// The files of a challenge, in the order in which the document lists them.
#[derive(Debug, Clone, PartialEq)]
pub struct Files(pub(crate) Vec<File>);

impl View for Files {
    type V = Seq<FileView>;

    closed spec fn view(&self) -> Seq<FileView> {
        views(self.0@)
    }
}

impl Files {
    /// The list that holds `files`, in their order.
    pub(crate) fn new(files: Vec<File>) -> (list: Files)
        ensures
            list@ == views(files@),
    {
        Files(files)
    }

    /// The path of each file, in order.
    pub fn iter_paths(&self) -> (paths: Vec<&str>)
        ensures
            paths@.len() == self@.len(),
            forall|i: int| 0 <= i < paths@.len() ==> paths@[i]@ == self@[i].path,
    {
        let mut paths: Vec<&str> = Vec::new();
        let mut at: usize = 0;
        while at < self.0.len()
            invariant
                at <= self.0.len(),
                paths@.len() == at,
                forall|i: int| 0 <= i < at ==> paths@[i]@ == self@[i].path,
            decreases self.0.len() - at,
        {
            paths.push(self.0[at].path());
            at += 1;
        }
        paths
    }

    /// The files, in order.
    pub fn iter(&self) -> (files: Vec<&File>)
        ensures
            files@.len() == self@.len(),
            forall|i: int| 0 <= i < files@.len() ==> files@[i]@ == self@[i],
    {
        let mut files: Vec<&File> = Vec::new();
        let mut at: usize = 0;
        while at < self.0.len()
            invariant
                at <= self.0.len(),
                files@.len() == at,
                forall|i: int| 0 <= i < at ==> files@[i]@ == self@[i],
            decreases self.0.len() - at,
        {
            files.push(&self.0[at]);
            at += 1;
        }
        files
    }

    /// The files, in order.
    pub fn slice(&self) -> (files: &[File])
        ensures
            views(files@) == self@,
    {
        self.0.as_slice()
    }
}

impl FileView {
    /// The file as a short line for a reader: where it lies, the name it is
    /// shown under, the container that serves it, and whether players see
    /// it.
    pub open spec fn rendered(self) -> Seq<char> {
        let place = match self.alias {
            Some(alias) => "File< "@ + "@"@ + self.path + " => "@ + alias,
            None => "File< "@ + "@"@ + self.path,
        };
        let bar = place + " | "@;
        let state = match self.container {
            Some(container) => if self.visible {
                bar + container_name(container) + ", visible"@
            } else {
                bar + container_name(container)
            },
            None => if self.visible {
                bar + "visible"@
            } else {
                bar + "unused"@
            },
        };
        state + " >"@
    }
}

impl File {
    /// The file as a short line for a reader.
    pub fn render(&self) -> (text: String)
        ensures
            text@ == self@.rendered(),
    {
        let mut text = "File< ".to_owned();
        text.append("@");
        text.append(self.path.as_str());
        if let Some(alias) = &self.alias {
            text.append(" => ");
            text.append(alias.as_str());
        }
        text.append(" | ");
        if let Some(container) = self.container {
            text.append(container.to_str());
            if self.visible {
                text.append(", visible");
            }
        } else if self.visible {
            text.append("visible");
        } else {
            text.append("unused");
        }
        text.append(" >");
        text
    }
}

} // verus!
