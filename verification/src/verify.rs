//! Validation of a whole document.

use vstd::prelude::*;
use crate::categories::{
    categories_of, lemma_categories_known, value_to_categories, Categories, CategoryErrorView,
    CategorySet,
};
use crate::correctness::{Correctness, PolicyError};
use crate::deploy::structs::{DeployOptions, DeployOptionsView};
use crate::deploy::{deploy_of, lemma_deploy_well_formed, parse_deploy};
use crate::fields::{
    read_required_bool, read_required_str, read_required_u64, required_bool, required_str,
    required_u64, FieldError,
};
use crate::files::structs::{FileView, Files};
use crate::files::{
    file_list, file_requests, files_of, lemma_files_read_wanted_only, lemma_files_well_formed,
    wanted_by_files,
};
use crate::flag::{
    flag_of, flag_path, flag_request, get_flag, lemma_flag_reads_wanted_only, Flag, FlagErrorView,
    FlagView,
};
use crate::lists::structs::{AuthorError, AuthorErrorView, Authors, HintErrorView, Hints};
use crate::lists::{as_str_list, string_list_of, ListErrorView};
use crate::node::{entry_trees, get, lookup, Node, Tree};
use crate::shape::{YamlShape, YamlShapeView};
use crate::snapshot::{read, Reading, Snapshot};
use crate::source::{parse_document, read_of};
use crate::structs::{
    get_type, type_of, ValueType, YamlAttribVerifyError, YamlAttribVerifyErrorView, YamlVerifyError,
    YamlVerifyErrorView,
};
use crate::views::{failure, opt_view, result_view, views};

verus! {

/// The authors of a document: the list of strings under `authors`.
pub open spec fn authors_part(entries: Seq<(Tree, Tree)>) -> Result<
    Seq<Seq<char>>,
    YamlAttribVerifyErrorView,
> {
    match lookup(entries, "authors"@) {
        None => Err(YamlAttribVerifyErrorView::Authors(AuthorErrorView::MissingKey)),
        Some(node) => match string_list_of(node) {
            Ok(names) => Ok(names),
            Err(ListErrorView::NotASequence(kind)) => Err(
                YamlAttribVerifyErrorView::Authors(AuthorErrorView::BadType(kind)),
            ),
            Err(ListErrorView::BadElements(kinds)) => Err(
                YamlAttribVerifyErrorView::Authors(AuthorErrorView::BadEntryType(kinds)),
            ),
        },
    }
}

/// The categories of a document: the list of known names under
/// `categories`.
pub open spec fn categories_part(entries: Seq<(Tree, Tree)>, known: Seq<Seq<char>>) -> Result<
    Seq<Seq<char>>,
    YamlAttribVerifyErrorView,
> {
    match lookup(entries, "categories"@) {
        None => Err(YamlAttribVerifyErrorView::Categories(CategoryErrorView::MissingKey)),
        Some(node) => match categories_of(node, known) {
            Ok(names) => Ok(names),
            Err(error) => Err(YamlAttribVerifyErrorView::Categories(error)),
        },
    }
}

/// The hints of a document: the list of strings under `hints`, and no hints
/// where the document has no such attribute.
pub open spec fn hints_part(entries: Seq<(Tree, Tree)>) -> Result<
    Seq<Seq<char>>,
    YamlAttribVerifyErrorView,
> {
    match lookup(entries, "hints"@) {
        None => Ok(seq![]),
        Some(node) => match string_list_of(node) {
            Ok(hints) => Ok(hints),
            Err(ListErrorView::NotASequence(kind)) => Err(
                YamlAttribVerifyErrorView::Hints(HintErrorView::BadType(kind)),
            ),
            Err(ListErrorView::BadElements(kinds)) => Err(
                YamlAttribVerifyErrorView::Hints(HintErrorView::BadEntryType(kinds)),
            ),
        },
    }
}

/// The files of a document: the list under `files`, where there is one.
pub open spec fn files_part(entries: Seq<(Tree, Tree)>, files: Seq<(Seq<char>, Reading)>) -> Result<
    Option<Seq<FileView>>,
    YamlAttribVerifyErrorView,
> {
    match lookup(entries, "files"@) {
        None => Ok(None),
        Some(node) => match files_of(node, files) {
            Ok(list) => Ok(Some(list)),
            Err(error) => Err(YamlAttribVerifyErrorView::Files(error)),
        },
    }
}

/// How a document is deployed: the targets under `deploy`, where there are
/// any.
pub open spec fn deploy_part(entries: Seq<(Tree, Tree)>) -> Result<
    Option<DeployOptionsView>,
    YamlAttribVerifyErrorView,
> {
    match lookup(entries, "deploy"@) {
        None => Ok(None),
        Some(node) => match deploy_of(node) {
            Ok(options) => Ok(Some(options)),
            Err(error) => Err(YamlAttribVerifyErrorView::Deploy(error)),
        },
    }
}

/// What a document is worth: the non-negative integer under `value`.
pub open spec fn points_part(entries: Seq<(Tree, Tree)>) -> Result<u64, YamlAttribVerifyErrorView> {
    match required_u64(entries, "value"@) {
        Ok(points) => Ok(points),
        Err(error) => Err(YamlAttribVerifyErrorView::PointsNotInt(error)),
    }
}

/// The secret of a document: what stands under `flag`.
pub open spec fn flag_part(entries: Seq<(Tree, Tree)>, files: Seq<(Seq<char>, Reading)>) -> Result<
    FlagView,
    YamlAttribVerifyErrorView,
> {
    match lookup(entries, "flag"@) {
        None => Err(YamlAttribVerifyErrorView::Flag(FlagErrorView::MissingKey)),
        Some(node) => match flag_of(node, files) {
            Ok(flag) => Ok(flag),
            Err(error) => Err(YamlAttribVerifyErrorView::Flag(error)),
        },
    }
}

/// The name of a document: the string under `name`.
pub open spec fn name_part(entries: Seq<(Tree, Tree)>) -> Result<Seq<char>, YamlAttribVerifyErrorView> {
    match required_str(entries, "name"@) {
        Ok(name) => Ok(name),
        Err(error) => Err(YamlAttribVerifyErrorView::NameNotString(error)),
    }
}

/// The description of a document: the string under `description`.
pub open spec fn description_part(entries: Seq<(Tree, Tree)>) -> Result<
    Seq<char>,
    YamlAttribVerifyErrorView,
> {
    match required_str(entries, "description"@) {
        Ok(description) => Ok(description),
        Err(error) => Err(YamlAttribVerifyErrorView::DescNotString(error)),
    }
}

/// Whether players see a document: the boolean under `visible`.
pub open spec fn visible_part(entries: Seq<(Tree, Tree)>) -> Result<bool, YamlAttribVerifyErrorView> {
    match required_bool(entries, "visible"@) {
        Ok(visible) => Ok(visible),
        Err(error) => Err(YamlAttribVerifyErrorView::VisNotBool(error)),
    }
}

/// The error of one attribute, as a list: empty where the attribute is
/// right.
pub open spec fn errors_of<T>(part: Result<T, YamlAttribVerifyErrorView>) -> Seq<
    YamlAttribVerifyErrorView,
> {
    match part {
        Ok(_) => seq![],
        Err(error) => seq![error],
    }
}

/// The errors of the attributes of a document that are wrong, in the order
/// authors, categories, hints, files, deploy, value, flag, name,
/// description, visible. An attribute that is right adds nothing.
pub open spec fn part_errors(
    entries: Seq<(Tree, Tree)>,
    known: Seq<Seq<char>>,
    files: Seq<(Seq<char>, Reading)>,
) -> Seq<YamlAttribVerifyErrorView> {
    errors_of(authors_part(entries)) + errors_of(categories_part(entries, known)) + errors_of(
        hints_part(entries),
    ) + errors_of(files_part(entries, files)) + errors_of(deploy_part(entries)) + errors_of(
        points_part(entries),
    ) + errors_of(flag_part(entries, files)) + errors_of(name_part(entries)) + errors_of(
        description_part(entries),
    ) + errors_of(visible_part(entries))
}

/// The document that the attributes make, where each of them is right.
pub open spec fn shape_of(
    entries: Seq<(Tree, Tree)>,
    known: Seq<Seq<char>>,
    files: Seq<(Seq<char>, Reading)>,
) -> YamlShapeView {
    YamlShapeView {
        authors: authors_part(entries)->Ok_0,
        categories: categories_part(entries, known)->Ok_0,
        hints: hints_part(entries)->Ok_0,
        files: files_part(entries, files)->Ok_0,
        deploy: deploy_part(entries)->Ok_0,
        points: points_part(entries)->Ok_0,
        flag: flag_part(entries, files)->Ok_0,
        name: name_part(entries)->Ok_0,
        description: description_part(entries)->Ok_0,
        visible: visible_part(entries)->Ok_0,
    }
}

/// What validation makes of the document `tree`, with `known` as the names
/// of categories and the files as `files` has them. The document has to be
/// a map. Every attribute is judged, whatever comes of the others; where
/// one is wrong, the errors of all that are wrong come back.
pub open spec fn document_of(
    tree: Tree,
    known: Seq<Seq<char>>,
    files: Seq<(Seq<char>, Reading)>,
) -> Result<YamlShapeView, YamlVerifyErrorView> {
    match tree.as_mapping() {
        None => Err(YamlVerifyErrorView::BaseNotMap(type_of(tree))),
        Some(entries) => if part_errors(entries, known, files).len() == 0 {
            Ok(shape_of(entries, known, files))
        } else {
            Err(YamlVerifyErrorView::PartErrors(part_errors(entries, known, files)))
        },
    }
}

/// The authors of the document `base`.
fn get_authors(base: &Vec<(Node, Node)>) -> (authors: Result<Authors, YamlAttribVerifyError>)
    ensures
        result_view(authors) == authors_part(entry_trees(base@)),
{
    match get(base, "authors") {
        None => Err(YamlAttribVerifyError::Authors(AuthorError::default())),
        Some(node) => match as_str_list::<Authors>(node) {
            Ok(authors) => Ok(authors),
            Err(error) => Err(YamlAttribVerifyError::Authors(error)),
        },
    }
}

/// The categories of the document `base`.
fn get_categories(base: &Vec<(Node, Node)>, known: &CategorySet) -> (categories: Result<
    Categories,
    YamlAttribVerifyError,
>)
    ensures
        result_view(categories) == categories_part(entry_trees(base@), known@),
{
    match get(base, "categories") {
        None => Err(YamlAttribVerifyError::Categories(Default::default())),
        Some(node) => match value_to_categories(node, known) {
            Ok(categories) => Ok(categories),
            Err(error) => Err(YamlAttribVerifyError::Categories(error)),
        },
    }
}

/// The hints of the document `base`.
fn get_hints(base: &Vec<(Node, Node)>) -> (hints: Result<Hints, YamlAttribVerifyError>)
    ensures
        result_view(hints) == hints_part(entry_trees(base@)),
{
    match get(base, "hints") {
        None => Ok(Hints::empty()),
        Some(node) => match as_str_list::<Hints>(node) {
            Ok(hints) => Ok(hints),
            Err(error) => Err(YamlAttribVerifyError::Hints(error)),
        },
    }
}

/// The files of the document `base`.
fn get_files(base: &Vec<(Node, Node)>, files: &Snapshot) -> (list: Result<
    Option<Files>,
    YamlAttribVerifyError,
>)
    ensures
        files_part(entry_trees(base@), files@) == (match list {
            Ok(list) => Ok(opt_view(list)),
            Err(error) => Err(error@),
        }),
{
    match get(base, "files") {
        None => Ok(None),
        Some(node) => match file_list(node, files) {
            Ok(list) => Ok(Some(list)),
            Err(error) => Err(YamlAttribVerifyError::Files(error)),
        },
    }
}

/// How the document `base` is deployed.
fn get_deploy(base: &Vec<(Node, Node)>) -> (deploy: Result<
    Option<DeployOptions>,
    YamlAttribVerifyError,
>)
    ensures
        deploy_part(entry_trees(base@)) == (match deploy {
            Ok(options) => Ok(opt_view(options)),
            Err(error) => Err(error@),
        }),
{
    match get(base, "deploy") {
        None => Ok(None),
        Some(node) => match parse_deploy(node) {
            Ok(options) => Ok(Some(options)),
            Err(error) => Err(YamlAttribVerifyError::Deploy(error)),
        },
    }
}

/// What the document `base` is worth.
fn get_points(base: &Vec<(Node, Node)>) -> (points: Result<u64, YamlAttribVerifyError>)
    ensures
        points_part(entry_trees(base@)) == (match points {
            Ok(points) => Ok(points),
            Err(error) => Err(error@),
        }),
{
    match read_required_u64(base, "value") {
        Ok(points) => Ok(points),
        Err(error) => Err(YamlAttribVerifyError::PointsNotInt(error)),
    }
}

/// The secret of the document `base`.
fn get_document_flag(base: &Vec<(Node, Node)>, files: &Snapshot) -> (flag: Result<
    Flag,
    YamlAttribVerifyError,
>)
    ensures
        result_view(flag) == flag_part(entry_trees(base@), files@),
{
    match get(base, "flag") {
        None => Err(YamlAttribVerifyError::Flag(Default::default())),
        Some(node) => match get_flag(node, files) {
            Ok(flag) => Ok(flag),
            Err(error) => Err(YamlAttribVerifyError::Flag(error)),
        },
    }
}

/// The name of the document `base`.
fn get_name(base: &Vec<(Node, Node)>) -> (name: Result<String, YamlAttribVerifyError>)
    ensures
        result_view(name) == name_part(entry_trees(base@)),
{
    match read_required_str(base, "name") {
        Ok(name) => Ok(name.to_owned()),
        Err(error) => Err(YamlAttribVerifyError::NameNotString(error)),
    }
}

/// The description of the document `base`.
fn get_description(base: &Vec<(Node, Node)>) -> (description: Result<String, YamlAttribVerifyError>)
    ensures
        result_view(description) == description_part(entry_trees(base@)),
{
    match read_required_str(base, "description") {
        Ok(description) => Ok(description.to_owned()),
        Err(error) => Err(YamlAttribVerifyError::DescNotString(error)),
    }
}

/// Whether players see the document `base`.
fn get_visible(base: &Vec<(Node, Node)>) -> (visible: Result<bool, YamlAttribVerifyError>)
    ensures
        visible_part(entry_trees(base@)) == (match visible {
            Ok(visible) => Ok(visible),
            Err(error) => Err(error@),
        }),
{
    match read_required_bool(base, "visible") {
        Ok(visible) => Ok(visible),
        Err(error) => Err(YamlAttribVerifyError::VisNotBool(error)),
    }
}

/// The error of one attribute as validation found it, as a list: empty
/// where the attribute is right.
pub open spec fn failures<T>(part: Result<T, YamlAttribVerifyError>) -> Seq<
    YamlAttribVerifyErrorView,
> {
    match part {
        Ok(_) => seq![],
        Err(error) => seq![error@],
    }
}

/// Takes one attribute into the tally: keeps what is right, and adds the
/// error of what is wrong to `errors`.
fn collect<T>(part: Result<T, YamlAttribVerifyError>, errors: &mut Vec<YamlAttribVerifyError>) -> (kept:
    Option<T>)
    ensures
        kept == (match part {
            Ok(value) => Some(value),
            Err(_) => None,
        }),
        views(final(errors)@) == views(old(errors)@) + failures(part),
{
    match part {
        Ok(value) => {
            assert(views(errors@) =~= views(errors@) + failures(part));
            Some(value)
        },
        Err(error) => {
            errors.push(error);
            assert(views(errors@) =~= views(old(errors)@) + failures(part));
            None
        },
    }
}

/// Makes the document out of its attributes where each of them is right,
/// and the list of the errors of all that are wrong, in the order of the
/// attributes, where one is wrong.
pub fn collect_errors(
    authors: Result<Authors, YamlAttribVerifyError>,
    categories: Result<Categories, YamlAttribVerifyError>,
    hints: Result<Hints, YamlAttribVerifyError>,
    files: Result<Option<Files>, YamlAttribVerifyError>,
    deploy: Result<Option<DeployOptions>, YamlAttribVerifyError>,
    points: Result<u64, YamlAttribVerifyError>,
    flag: Result<Flag, YamlAttribVerifyError>,
    name: Result<String, YamlAttribVerifyError>,
    description: Result<String, YamlAttribVerifyError>,
    visible: Result<bool, YamlAttribVerifyError>,
) -> (document: Result<YamlShape, Vec<YamlAttribVerifyError>>)
    ensures
        document is Ok <==> authors is Ok && categories is Ok && hints is Ok && files is Ok
            && deploy is Ok && points is Ok && flag is Ok && name is Ok && description is Ok
            && visible is Ok,
        document matches Ok(shape) ==> shape@ == (YamlShapeView {
            authors: authors->Ok_0@,
            categories: categories->Ok_0@,
            hints: hints->Ok_0@,
            files: opt_view(files->Ok_0),
            deploy: opt_view(deploy->Ok_0),
            points: points->Ok_0,
            flag: flag->Ok_0@,
            name: name->Ok_0@,
            description: description->Ok_0@,
            visible: visible->Ok_0,
        }),
        document matches Err(errors) ==> views(errors@) == failures(authors) + failures(categories)
            + failures(hints) + failures(files) + failures(deploy) + failures(points) + failures(
            flag,
        ) + failures(name) + failures(description) + failures(visible),
{
    let ghost of_authors = failures(authors);
    let ghost of_categories = of_authors + failures(categories);
    let ghost of_hints = of_categories + failures(hints);
    let ghost of_files = of_hints + failures(files);
    let ghost of_deploy = of_files + failures(deploy);
    let ghost of_points = of_deploy + failures(points);
    let ghost of_flag = of_points + failures(flag);
    let ghost of_name = of_flag + failures(name);
    let ghost of_description = of_name + failures(description);
    let ghost all = of_description + failures(visible);
    let mut errors: Vec<YamlAttribVerifyError> = Vec::new();
    assert(views(errors@) =~= seq![]);
    let kept_authors = collect(authors, &mut errors);
    assert(views(errors@) =~= of_authors);
    let kept_categories = collect(categories, &mut errors);
    assert(views(errors@) == of_categories);
    let kept_hints = collect(hints, &mut errors);
    assert(views(errors@) == of_hints);
    let kept_files = collect(files, &mut errors);
    assert(views(errors@) == of_files);
    let kept_deploy = collect(deploy, &mut errors);
    assert(views(errors@) == of_deploy);
    let kept_points = collect(points, &mut errors);
    assert(views(errors@) == of_points);
    let kept_flag = collect(flag, &mut errors);
    assert(views(errors@) == of_flag);
    let kept_name = collect(name, &mut errors);
    assert(views(errors@) == of_name);
    let kept_description = collect(description, &mut errors);
    assert(views(errors@) == of_description);
    let kept_visible = collect(visible, &mut errors);
    assert(views(errors@) == all);

    if errors.len() > 0 {
        return Err(errors);
    }
    assert(all.len() == 0);
    assert(of_authors.len() == 0 && failures(categories).len() == 0 && failures(hints).len() == 0
        && failures(files).len() == 0 && failures(deploy).len() == 0 && failures(points).len() == 0
        && failures(flag).len() == 0 && failures(name).len() == 0 && failures(description).len()
        == 0 && failures(visible).len() == 0);
    Ok(
        YamlShape::new(
            kept_authors.unwrap(),
            kept_categories.unwrap(),
            kept_hints.unwrap(),
            kept_files.unwrap(),
            kept_deploy.unwrap(),
            kept_points.unwrap(),
            kept_flag.unwrap(),
            kept_name.unwrap(),
            kept_description.unwrap(),
            kept_visible.unwrap(),
        ),
    )
}

/// Validates the document `root`, with `known` as the names of categories
/// and the files as `files` has them.
pub fn verify_document(root: &Node, known: &CategorySet, files: &Snapshot) -> (document: Result<
    YamlShape,
    YamlVerifyError,
>)
    ensures
        result_view(document) == document_of(root@, known@, files@),
{
    let base = match root.as_mapping() {
        Some(base) => base,
        None => {
            return Err(YamlVerifyError::BaseNotMap(get_type(root)));
        },
    };
    let ghost entries = entry_trees(base@);
    let categories = get_categories(base, known);
    let authors = get_authors(base);
    let hints = get_hints(base);
    let list = get_files(base, files);
    let deploy = get_deploy(base);
    let points = get_points(base);
    let flag = get_document_flag(base, files);
    let name = get_name(base);
    let description = get_description(base);
    let visible = get_visible(base);
    proof {
        assert(failures(authors) == errors_of(authors_part(entries)));
        assert(failures(categories) == errors_of(categories_part(entries, known@)));
        assert(failures(hints) == errors_of(hints_part(entries)));
        assert(failures(list) == errors_of(files_part(entries, files@)));
        assert(failures(deploy) == errors_of(deploy_part(entries)));
        assert(failures(points) == errors_of(points_part(entries)));
        assert(failures(flag) == errors_of(flag_part(entries, files@)));
        assert(failures(name) == errors_of(name_part(entries)));
        assert(failures(description) == errors_of(description_part(entries)));
        assert(failures(visible) == errors_of(visible_part(entries)));
    }
    match collect_errors(
        authors,
        categories,
        hints,
        list,
        deploy,
        points,
        flag,
        name,
        description,
        visible,
    ) {
        Ok(shape) => Ok(shape),
        Err(errors) => Err(YamlVerifyError::PartErrors(errors)),
    }
}

/// What the rules of correctness make of a valid document: the document
/// where they are met, and their error where they are not.
pub open spec fn concluded(shape: YamlShapeView, verdict: Result<(), PolicyError>) -> Result<
    YamlShapeView,
    YamlVerifyErrorView,
> {
    match verdict {
        Ok(_) => Ok(shape),
        Err(error) => Err(YamlVerifyErrorView::Correctness(error@)),
    }
}

/// Ends validation of a document of which every attribute is right, with
/// the verdict of the rules of correctness.
pub fn conclude(shape: YamlShape, verdict: Result<(), PolicyError>) -> (document: Result<
    YamlShape,
    YamlVerifyError,
>)
    ensures
        result_view(document) == concluded(shape@, verdict),
{
    match verdict {
        Ok(_) => Ok(shape),
        Err(error) => Err(YamlVerifyError::Correctness(error)),
    }
}

/// What validation makes of the text of a document before the rules of
/// correctness are asked: what reading makes of the text, and then what
/// `document_of` makes of the document.
pub open spec fn validated(
    text: Seq<char>,
    known: Seq<Seq<char>>,
    files: Seq<(Seq<char>, Reading)>,
) -> Result<YamlShapeView, YamlVerifyErrorView> {
    match read_of(text) {
        Err(error) => Err(error),
        Ok(tree) => document_of(tree, known, files),
    }
}

/// Validates the document that `text` stands for, with `known` as the names
/// of categories and the files as `files` has them, and holds it against
/// `correctness`.
///
/// A text that is no document, and a document with an attribute that is
/// wrong, fail as `parse_document` and `verify_document` say, whatever the
/// rules are. A document of which every attribute is right comes back
/// unless the rules turn it down.
pub fn verify_yaml<P: Correctness>(
    yaml_text: &str,
    correctness: &P,
    known: &CategorySet,
    files: &Snapshot,
) -> (document: Result<YamlShape, YamlVerifyError>)
    ensures
        document matches Ok(valid) ==> accepts(yaml_text@, known@, files@, valid@),
        match validated(yaml_text@, known@, files@) {
            Err(error) => result_view(document) == Err::<YamlShapeView, YamlVerifyErrorView>(error),
            Ok(shape) => match document {
                Ok(valid) => valid@ == shape,
                Err(error) => error is Correctness,
            },
        },
{
    let root = match parse_document(yaml_text) {
        Ok(root) => root,
        Err(error) => {
            return Err(error);
        },
    };
    let shape = match verify_document(&root, known, files) {
        Ok(shape) => shape,
        Err(error) => {
            return Err(error);
        },
    };
    let verdict = correctness.verify(&shape);
    conclude(shape, verdict)
}

impl YamlShape {
    /// Validates the document that `s` stands for; see [`verify_yaml`].
    pub fn try_from_str<P: Correctness>(
        s: &str,
        correctness: &P,
        known: &CategorySet,
        files: &Snapshot,
    ) -> (document: Result<YamlShape, YamlVerifyError>)
        ensures
            document matches Ok(valid) ==> accepts(s@, known@, files@, valid@),
            match validated(s@, known@, files@) {
                Err(error) => result_view(document) == Err::<YamlShapeView, YamlVerifyErrorView>(
                    error,
                ),
                Ok(shape) => match document {
                    Ok(valid) => valid@ == shape,
                    Err(error) => error is Correctness,
                },
            },
    {
        verify_yaml(s, correctness, known, files)
    }
}

/// The paths whose contents the document `tree` asks for: those of its
/// file list, in order, and then that of its flag. A document that is no
/// map asks for none.
pub open spec fn wanted_paths(tree: Tree) -> Seq<Seq<char>> {
    match tree.as_mapping() {
        None => seq![],
        Some(entries) => {
            let of_files = match lookup(entries, "files"@) {
                Some(node) => wanted_by_files(node),
                None => seq![],
            };
            let of_flag = match lookup(entries, "flag"@) {
                Some(node) => match flag_path(node) {
                    Some(path) => seq![path],
                    None => seq![],
                },
                None => seq![],
            };
            of_files + of_flag
        },
    }
}

/// The paths whose contents the document `root` asks for. Whoever validates
/// a document puts what came of reading each of them into the snapshot.
pub fn wanted_files(root: &Node) -> (paths: Vec<String>)
    ensures
        views(paths@) == wanted_paths(root@),
{
    let base = match root.as_mapping() {
        Some(base) => base,
        None => {
            let paths: Vec<String> = Vec::new();
            assert(views(paths@) =~= seq![]);
            return paths;
        },
    };
    let mut paths: Vec<String> = match get(base, "files") {
        Some(node) => file_requests(node),
        None => Vec::new(),
    };
    let ghost of_files = views(paths@);
    if let Some(node) = get(base, "flag") {
        if let Some(path) = flag_request(node) {
            paths.push(path);
            assert(views(paths@) =~= of_files + seq![path@]);
        }
    }
    assert(views(paths@) =~= wanted_paths(root@));
    paths
}

/// Validation depends on the files only by the paths that the document asks
/// for: two snapshots that say the same of each of these paths make the
/// same of the document.
pub proof fn lemma_document_reads_wanted_only(
    tree: Tree,
    known: Seq<Seq<char>>,
    files: Seq<(Seq<char>, Reading)>,
    others: Seq<(Seq<char>, Reading)>,
)
    requires
        forall|path: Seq<char>| #[trigger]
            wanted_paths(tree).contains(path) ==> read(files, path) == read(others, path),
    ensures
        document_of(tree, known, files) == document_of(tree, known, others),
{
    if let Some(entries) = tree.as_mapping() {
        let of_files = match lookup(entries, "files"@) {
            Some(node) => wanted_by_files(node),
            None => seq![],
        };
        let of_flag = match lookup(entries, "flag"@) {
            Some(node) => match flag_path(node) {
                Some(path) => seq![path],
                None => seq![],
            },
            None => seq![],
        };
        let all = wanted_paths(tree);
        assert(all == of_files + of_flag);
        if let Some(node) = lookup(entries, "files"@) {
            assert forall|path: Seq<char>| #[trigger]
                wanted_by_files(node).contains(path) implies read(files, path) == read(
                others,
                path,
            ) by {
                let place = choose|k: int| 0 <= k < of_files.len() && of_files[k] == path;
                assert(all[place] == path);
                assert(wanted_paths(tree).contains(path));
            }
            lemma_files_read_wanted_only(node, files, others);
        }
        if let Some(node) = lookup(entries, "flag"@) {
            if let Some(path) = flag_path(node) {
                assert(all[of_files.len() as int] == path);
                assert(wanted_paths(tree).contains(path));
            }
            lemma_flag_reads_wanted_only(node, files, others);
        }
    }
}

/// Whether validation of the document that `text` stands for, but for the
/// rules of correctness, comes to `shape`.
pub open spec fn accepts(
    text: Seq<char>,
    known: Seq<Seq<char>>,
    files: Seq<(Seq<char>, Reading)>,
    shape: YamlShapeView,
) -> bool {
    validated(text, known, files) == Ok::<YamlShapeView, YamlVerifyErrorView>(shape)
}

/// Validation gives one answer: any two documents that it comes to for the
/// same text, the same known names and the same files are equal.
pub proof fn lemma_validation_repeats(
    text: Seq<char>,
    known: Seq<Seq<char>>,
    files: Seq<(Seq<char>, Reading)>,
    first: YamlShapeView,
    second: YamlShapeView,
)
    requires
        accepts(text, known, files, first),
        accepts(text, known, files, second),
    ensures
        first == second,
{
}

/// Whether each attribute that the document holds is right.
pub open spec fn present_parts_right(
    entries: Seq<(Tree, Tree)>,
    known: Seq<Seq<char>>,
    files: Seq<(Seq<char>, Reading)>,
) -> bool {
    &&& lookup(entries, "authors"@) is Some ==> authors_part(entries) is Ok
    &&& lookup(entries, "categories"@) is Some ==> categories_part(entries, known) is Ok
    &&& lookup(entries, "hints"@) is Some ==> hints_part(entries) is Ok
    &&& lookup(entries, "files"@) is Some ==> files_part(entries, files) is Ok
    &&& lookup(entries, "deploy"@) is Some ==> deploy_part(entries) is Ok
    &&& lookup(entries, "value"@) is Some ==> points_part(entries) is Ok
    &&& lookup(entries, "flag"@) is Some ==> flag_part(entries, files) is Ok
    &&& lookup(entries, "name"@) is Some ==> name_part(entries) is Ok
    &&& lookup(entries, "description"@) is Some ==> description_part(entries) is Ok
    &&& lookup(entries, "visible"@) is Some ==> visible_part(entries) is Ok
}

/// `error`, where the document does not hold `key`.
pub open spec fn missing(
    entries: Seq<(Tree, Tree)>,
    key: Seq<char>,
    error: YamlAttribVerifyErrorView,
) -> Seq<YamlAttribVerifyErrorView> {
    if lookup(entries, key) is None {
        seq![error]
    } else {
        seq![]
    }
}

/// One error for each attribute that a document must hold and does not, in
/// the order authors, categories, value, flag, name, description, visible.
pub open spec fn missing_errors(entries: Seq<(Tree, Tree)>) -> Seq<YamlAttribVerifyErrorView> {
    missing(entries, "authors"@, YamlAttribVerifyErrorView::Authors(AuthorErrorView::MissingKey))
        + missing(
        entries,
        "categories"@,
        YamlAttribVerifyErrorView::Categories(CategoryErrorView::MissingKey),
    ) + missing(entries, "value"@, YamlAttribVerifyErrorView::PointsNotInt(FieldError::Missing)) + missing(
        entries,
        "flag"@,
        YamlAttribVerifyErrorView::Flag(FlagErrorView::MissingKey),
    ) + missing(entries, "name"@, YamlAttribVerifyErrorView::NameNotString(FieldError::Missing)) + missing(
        entries,
        "description"@,
        YamlAttribVerifyErrorView::DescNotString(FieldError::Missing),
    ) + missing(entries, "visible"@, YamlAttribVerifyErrorView::VisNotBool(FieldError::Missing))
}

/// How many of the attributes that a document must hold it does not hold.
pub open spec fn missing_count(entries: Seq<(Tree, Tree)>) -> nat {
    missing_errors(entries).len()
}

/// Where each attribute that a document holds is right, the report has one
/// error for each attribute that the document must hold and does not, and
/// no other. The attributes that a document must hold are authors,
/// categories, value, flag, name, description and visible; hints are none
/// where they are left out. A document that misses none of them is valid.
pub proof fn lemma_missing_keys(
    tree: Tree,
    known: Seq<Seq<char>>,
    files: Seq<(Seq<char>, Reading)>,
)
    requires
        tree.as_mapping() matches Some(entries) && present_parts_right(entries, known, files),
    ensures
        ({
            let entries = tree.as_mapping()->Some_0;
            &&& part_errors(entries, known, files) == missing_errors(entries)
            &&& part_errors(entries, known, files).len() == missing_count(entries)
            &&& missing_count(entries) == 0 ==> document_of(tree, known, files) is Ok
            &&& missing_count(entries) > 0 ==> document_of(tree, known, files) == Err::<
                YamlShapeView,
                YamlVerifyErrorView,
            >(YamlVerifyErrorView::PartErrors(missing_errors(entries)))
            &&& missing_count(entries) == (if lookup(entries, "authors"@) is None {
                1nat
            } else {
                0
            }) + (if lookup(entries, "categories"@) is None {
                1nat
            } else {
                0
            }) + (if lookup(entries, "value"@) is None {
                1nat
            } else {
                0
            }) + (if lookup(entries, "flag"@) is None {
                1nat
            } else {
                0
            }) + (if lookup(entries, "name"@) is None {
                1nat
            } else {
                0
            }) + (if lookup(entries, "description"@) is None {
                1nat
            } else {
                0
            }) + (if lookup(entries, "visible"@) is None {
                1nat
            } else {
                0
            })
        }),
{
    let entries = tree.as_mapping()->Some_0;
    assert(part_errors(entries, known, files) =~= missing_errors(entries));
}

/// The attributes that hold one plain value.
pub enum Scalar {
    Name,
    Description,
    Visible,
    Value,
}

/// The node of a plain attribute that is there and of the wrong kind.
pub open spec fn wrong_scalar(entries: Seq<(Tree, Tree)>, scalar: Scalar) -> Option<Tree> {
    match scalar {
        Scalar::Name => match lookup(entries, "name"@) {
            Some(node) => if node.as_str() is None {
                Some(node)
            } else {
                None
            },
            None => None,
        },
        Scalar::Description => match lookup(entries, "description"@) {
            Some(node) => if node.as_str() is None {
                Some(node)
            } else {
                None
            },
            None => None,
        },
        Scalar::Visible => match lookup(entries, "visible"@) {
            Some(node) => if node.as_bool() is None {
                Some(node)
            } else {
                None
            },
            None => None,
        },
        Scalar::Value => match lookup(entries, "value"@) {
            Some(node) => if node.as_u64() is None {
                Some(node)
            } else {
                None
            },
            None => None,
        },
    }
}

/// The error of a plain attribute that holds a node of the kind `kind`.
pub open spec fn scalar_error(scalar: Scalar, kind: ValueType) -> YamlAttribVerifyErrorView {
    match scalar {
        Scalar::Name => YamlAttribVerifyErrorView::NameNotString(FieldError::WrongType(kind)),
        Scalar::Description => YamlAttribVerifyErrorView::DescNotString(
            FieldError::WrongType(kind),
        ),
        Scalar::Visible => YamlAttribVerifyErrorView::VisNotBool(FieldError::WrongType(kind)),
        Scalar::Value => YamlAttribVerifyErrorView::PointsNotInt(FieldError::WrongType(kind)),
    }
}

/// The key of a plain attribute.
pub open spec fn scalar_key(scalar: Scalar) -> Seq<char> {
    match scalar {
        Scalar::Name => "name"@,
        Scalar::Description => "description"@,
        Scalar::Visible => "visible"@,
        Scalar::Value => "value"@,
    }
}

/// The error of a plain attribute that is not there.
pub open spec fn scalar_missing(scalar: Scalar) -> YamlAttribVerifyErrorView {
    match scalar {
        Scalar::Name => YamlAttribVerifyErrorView::NameNotString(FieldError::Missing),
        Scalar::Description => YamlAttribVerifyErrorView::DescNotString(FieldError::Missing),
        Scalar::Visible => YamlAttribVerifyErrorView::VisNotBool(FieldError::Missing),
        Scalar::Value => YamlAttribVerifyErrorView::PointsNotInt(FieldError::Missing),
    }
}

/// What is wrong with a plain attribute of a document, where it is wrong.
pub open spec fn scalar_failure(entries: Seq<(Tree, Tree)>, scalar: Scalar) -> Option<
    YamlAttribVerifyErrorView,
> {
    match scalar {
        Scalar::Name => failure(name_part(entries)),
        Scalar::Description => failure(description_part(entries)),
        Scalar::Visible => failure(visible_part(entries)),
        Scalar::Value => failure(points_part(entries)),
    }
}

/// A plain attribute that is not there and one of the wrong kind are told
/// apart: the attribute fails as missing exactly where the document does
/// not hold its key, it fails with the kind found exactly where the
/// document holds a node of the wrong kind under the key, and the two
/// errors are never the same.
pub proof fn lemma_missing_is_not_wrong_kind(entries: Seq<(Tree, Tree)>, scalar: Scalar)
    ensures
        scalar_failure(entries, scalar) == Some(scalar_missing(scalar)) <==> lookup(
            entries,
            scalar_key(scalar),
        ) is None,
        wrong_scalar(entries, scalar) matches Some(node) ==> scalar_failure(entries, scalar)
            == Some(scalar_error(scalar, type_of(node))),
        scalar_failure(entries, scalar) is Some ==> lookup(entries, scalar_key(scalar)) is None
            || wrong_scalar(entries, scalar) is Some,
        forall|kind: ValueType| scalar_error(scalar, kind) != scalar_missing(scalar),
{
}

/// Whether every attribute but the plain attribute `scalar` is right.
pub open spec fn others_right(
    entries: Seq<(Tree, Tree)>,
    known: Seq<Seq<char>>,
    files: Seq<(Seq<char>, Reading)>,
    scalar: Scalar,
) -> bool {
    &&& authors_part(entries) is Ok
    &&& categories_part(entries, known) is Ok
    &&& hints_part(entries) is Ok
    &&& files_part(entries, files) is Ok
    &&& deploy_part(entries) is Ok
    &&& flag_part(entries, files) is Ok
    &&& scalar is Value || points_part(entries) is Ok
    &&& scalar is Name || name_part(entries) is Ok
    &&& scalar is Description || description_part(entries) is Ok
    &&& scalar is Visible || visible_part(entries) is Ok
}

/// Where one plain attribute is of the wrong kind and every other attribute
/// is right, the report holds one error, which names that attribute and the
/// kind found there.
pub proof fn lemma_one_wrong_scalar(
    tree: Tree,
    known: Seq<Seq<char>>,
    files: Seq<(Seq<char>, Reading)>,
    scalar: Scalar,
)
    requires
        tree.as_mapping() matches Some(entries) && wrong_scalar(entries, scalar) is Some
            && others_right(entries, known, files, scalar),
    ensures
        ({
            let entries = tree.as_mapping()->Some_0;
            let error = scalar_error(scalar, type_of(wrong_scalar(entries, scalar)->Some_0));
            &&& part_errors(entries, known, files) == seq![error]
            &&& document_of(tree, known, files) == Err::<YamlShapeView, YamlVerifyErrorView>(
                YamlVerifyErrorView::PartErrors(seq![error]),
            )
        }),
{
    let entries = tree.as_mapping()->Some_0;
    assert(part_errors(entries, known, files) =~= seq![
        scalar_error(scalar, type_of(wrong_scalar(entries, scalar)->Some_0)),
    ]);
}

/// Every document that validation lets through is well formed.
pub proof fn lemma_document_well_formed(
    tree: Tree,
    known: Seq<Seq<char>>,
    files: Seq<(Seq<char>, Reading)>,
)
    ensures
        document_of(tree, known, files) matches Ok(shape) ==> shape.well_formed(known),
{
    if let Some(entries) = tree.as_mapping() {
        if part_errors(entries, known, files).len() == 0 {
            if let Some(node) = lookup(entries, "categories"@) {
                lemma_categories_known(node, known);
            }
            if let Some(node) = lookup(entries, "files"@) {
                lemma_files_well_formed(node, files);
            }
            if let Some(node) = lookup(entries, "deploy"@) {
                lemma_deploy_well_formed(node);
            }
        }
    }
}

} // verus!
