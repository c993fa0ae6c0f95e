//! The validated document.

use vstd::prelude::*;
use crate::categories::{Categories, Category};
use crate::deploy::structs::{DeployOptions, DeployOptionsView};
use crate::files::structs::{File, FileView, Files};
use crate::flag::{Flag, FlagView};
use crate::lists::structs::{Authors, Hints};
use crate::views::{opt_view, views};

verus! {

/// A challenge definition of which every attribute is right.
///
/// A value of this type is made by validation only, and only as a whole.
#[derive(Debug, PartialEq)]
pub struct YamlShape {
    authors: Authors,
    categories: Categories,
    hints: Hints,
    files: Option<Files>,
    deploy: Option<DeployOptions>,
    points: u64,
    flag: Flag,
    name: String,
    description: String,
    visible: bool,
}

/// The mathematical value of a [`YamlShape`].
#[verifier::ext_equal]
pub struct YamlShapeView {
    pub authors: Seq<Seq<char>>,
    pub categories: Seq<Seq<char>>,
    pub hints: Seq<Seq<char>>,
    pub files: Option<Seq<FileView>>,
    pub deploy: Option<DeployOptionsView>,
    pub points: u64,
    pub flag: FlagView,
    pub name: Seq<char>,
    pub description: Seq<char>,
    pub visible: bool,
}

impl YamlShapeView {
    /// What holds of every document that validation lets through, with
    /// `known` as the names of categories: each category is a known name,
    /// each file and each deployed container is well formed.
    pub open spec fn well_formed(self, known: Seq<Seq<char>>) -> bool {
        &&& forall|i: int|
            0 <= i < self.categories.len() ==> known.contains(#[trigger] self.categories[i])
        &&& self.files matches Some(files) ==> forall|i: int|
            0 <= i < files.len() ==> (#[trigger] files[i]).well_formed()
        &&& self.deploy matches Some(deploy) ==> deploy.well_formed()
    }
}

impl View for YamlShape {
    type V = YamlShapeView;

    closed spec fn view(&self) -> YamlShapeView {
        YamlShapeView {
            authors: self.authors@,
            categories: self.categories@,
            hints: self.hints@,
            files: opt_view(self.files),
            deploy: opt_view(self.deploy),
            points: self.points,
            flag: self.flag@,
            name: self.name@,
            description: self.description@,
            visible: self.visible,
        }
    }
}

impl YamlShape {
    /// The document with these attributes.
    pub(crate) fn new(
        authors: Authors,
        categories: Categories,
        hints: Hints,
        files: Option<Files>,
        deploy: Option<DeployOptions>,
        points: u64,
        flag: Flag,
        name: String,
        description: String,
        visible: bool,
    ) -> (shape: YamlShape)
        ensures
            shape@ == (YamlShapeView {
                authors: authors@,
                categories: categories@,
                hints: hints@,
                files: opt_view(files),
                deploy: opt_view(deploy),
                points,
                flag: flag@,
                name: name@,
                description: description@,
                visible,
            }),
    {
        YamlShape {
            authors,
            categories,
            hints,
            files,
            deploy,
            points,
            flag,
            name,
            description,
            visible,
        }
    }

    /// The path of each file, in order, where the document lists files.
    pub fn file_path_iter(&self) -> (paths: Option<Vec<&str>>)
        ensures
            paths is Some <==> self@.files is Some,
            paths matches Some(list) ==> {
                &&& list@.len() == self@.files->Some_0.len()
                &&& forall|i: int| 0 <= i < list@.len() ==> list@[i]@ == self@.files->Some_0[i].path
            },
    {
        match &self.files {
            Some(files) => Some(files.iter_paths()),
            None => None,
        }
    }

    /// The files, in order, where the document lists files.
    pub fn file_iter(&self) -> (files: Option<Vec<&File>>)
        ensures
            files is Some <==> self@.files is Some,
            files matches Some(list) ==> {
                &&& list@.len() == self@.files->Some_0.len()
                &&& forall|i: int| 0 <= i < list@.len() ==> list@[i]@ == self@.files->Some_0[i]
            },
    {
        match &self.files {
            Some(files) => Some(files.iter()),
            None => None,
        }
    }

    /// The files, in order, where the document lists files.
    pub fn files(&self) -> (files: Option<&[File]>)
        ensures
            files matches Some(list) ==> self@.files == Some(views(list@)),
            files is None ==> self@.files is None,
    {
        match &self.files {
            Some(files) => Some(files.slice()),
            None => None,
        }
    }

    /// The names of the authors, in order.
    pub fn author_iter(&self) -> (names: Vec<&str>)
        ensures
            names@.len() == self@.authors.len(),
            forall|i: int| 0 <= i < names@.len() ==> names@[i]@ == self@.authors[i],
    {
        self.authors.iter()
    }

    /// The names of the authors, in order.
    pub fn authors(&self) -> (names: &[String])
        ensures
            views(names@) == self@.authors,
    {
        self.authors.slice()
    }

    /// The names of the categories, in order.
    pub fn category_str_iter(&self) -> (names: Vec<&str>)
        ensures
            names@.len() == self@.categories.len(),
            forall|i: int| 0 <= i < names@.len() ==> names@[i]@ == self@.categories[i],
    {
        let categories = self.categories.slice();
        let mut names: Vec<&str> = Vec::new();
        let mut at: usize = 0;
        while at < categories.len()
            invariant
                at <= categories.len(),
                views(categories@) == self@.categories,
                names@.len() == at,
                forall|i: int| 0 <= i < at ==> names@[i]@ == self@.categories[i],
            decreases categories.len() - at,
        {
            assert(views(categories@)[at as int] == categories@[at as int]@);
            names.push(categories[at].as_str());
            at += 1;
        }
        names
    }

    /// The categories, in order.
    pub fn category_iter(&self) -> (categories: Vec<&Category>)
        ensures
            categories@.len() == self@.categories.len(),
            forall|i: int| 0 <= i < categories@.len() ==> categories@[i]@ == self@.categories[i],
    {
        self.categories.iter()
    }

    /// The categories, in order.
    pub fn categories(&self) -> (categories: &[Category])
        ensures
            views(categories@) == self@.categories,
    {
        self.categories.slice()
    }

    /// The hints, in order.
    pub fn hint_iter(&self) -> (hints: Vec<&str>)
        ensures
            hints@.len() == self@.hints.len(),
            forall|i: int| 0 <= i < hints@.len() ==> hints@[i]@ == self@.hints[i],
    {
        self.hints.iter()
    }

    /// The hints, in order.
    pub fn hints(&self) -> (hints: &[String])
        ensures
            views(hints@) == self@.hints,
    {
        self.hints.slice()
    }

    /// How the challenge is deployed, where the document says so.
    pub fn deploy(&self) -> (deploy: Option<&DeployOptions>)
        ensures
            deploy matches Some(options) ==> self@.deploy == Some(options@),
            deploy is None ==> self@.deploy is None,
    {
        self.deploy.as_ref()
    }

    /// The secret.
    pub fn flag_str(&self) -> (text: &str)
        ensures
            text@ == self@.flag.text(),
    {
        self.flag.as_str()
    }

    /// The path of the file that holds the secret, where one does.
    pub fn flag_filepath(&self) -> (path: Option<&str>)
        ensures
            path matches Some(p) ==> self@.flag.path() == Some(p@),
            path is None ==> self@.flag.path() is None,
    {
        self.flag.path()
    }

    /// The name of the challenge.
    pub fn chall_name(&self) -> (name: &str)
        ensures
            name@ == self@.name,
    {
        self.name.as_str()
    }

    /// The description of the challenge.
    pub fn description(&self) -> (description: &str)
        ensures
            description@ == self@.description,
    {
        self.description.as_str()
    }

    /// What the challenge is worth.
    pub fn points(&self) -> (points: u64)
        ensures
            points == self@.points,
    {
        self.points
    }

    /// Whether players see the challenge.
    pub fn visible(&self) -> (visible: bool)
        ensures
            visible == self@.visible,
    {
        self.visible
    }
}

} // verus!
