//! The `files` attribute: the files that come with a challenge.

pub mod errors;
pub mod get_file;
pub mod structs;

use vstd::prelude::*;
use crate::node::{trees, Node, Tree};
use crate::snapshot::{read, Reading, Snapshot};
use crate::structs::{get_type, type_of};
use crate::views::{failure, opt_views, result_view, views};
use self::errors::{FileErrors, FileErrorsView, FileParseErr, FileParseErrView};
use self::get_file::{
    file_of, get_file_from_mapping, lemma_entry_reads_wanted_only, lemma_file_well_formed, wanted,
    wanted_path,
};
use self::structs::{File, FileView, Files};

verus! {

/// The file that one item of the list describes, or what is wrong with the
/// item. An item has to be a map.
pub open spec fn entry_of(item: Tree, files: Seq<(Seq<char>, Reading)>) -> Result<
    FileView,
    FileParseErrView,
> {
    match item.as_mapping() {
        None => Err(FileParseErrView::ItemNotMapping(type_of(item))),
        Some(entries) => file_of(entries, files),
    }
}

/// For each item of the list, in order, what is wrong with it, and nothing
/// where it is right.
pub open spec fn entry_errors(items: Seq<Tree>, files: Seq<(Seq<char>, Reading)>) -> Seq<
    Option<FileParseErrView>,
> {
    Seq::new(items.len(), |i: int| failure(entry_of(items[i], files)))
}

/// The files that the items of the list describe, in order, where each item
/// is right.
pub open spec fn entry_files(items: Seq<Tree>, files: Seq<(Seq<char>, Reading)>) -> Seq<FileView> {
    Seq::new(items.len(), |i: int| entry_of(items[i], files)->Ok_0)
}

/// Whether each item of the list is right.
pub open spec fn entries_ok(items: Seq<Tree>, files: Seq<(Seq<char>, Reading)>) -> bool {
    forall|i: int| 0 <= i < items.len() ==> (#[trigger] entry_of(items[i], files)) is Ok
}

/// The files that the node `tree` lists, or what is wrong with it. The node
/// has to be a list. Where an item is wrong, the error has one place for
/// each item of the list.
pub open spec fn files_of(tree: Tree, files: Seq<(Seq<char>, Reading)>) -> Result<
    Seq<FileView>,
    FileErrorsView,
> {
    match tree.as_sequence() {
        None => Err(FileErrorsView::BadBaseType(type_of(tree))),
        Some(items) => if entries_ok(items, files) {
            Ok(entry_files(items, files))
        } else {
            Err(FileErrorsView::EntryErrors(entry_errors(items, files)))
        },
    }
}

/// The files that `value` lists, with their contents as `files` has them, or
/// what is wrong with the list.
pub fn file_list(value: &Node, files: &Snapshot) -> (list: Result<Files, FileErrors>)
    ensures
        result_view(list) == files_of(value@, files@),
{
    let sequence = match value.as_sequence() {
        Some(sequence) => sequence,
        None => {
            return Err(FileErrors::BadBaseType(get_type(value)));
        },
    };
    let ghost items = trees(sequence@);
    let mut found: Vec<File> = Vec::new();
    let mut errs: Vec<Option<FileParseErr>> = Vec::new();
    let mut at: usize = 0;
    while at < sequence.len()
        invariant
            at <= sequence.len(),
            items == trees(sequence@),
            errs@.len() == at,
            found@.len() <= at,
            opt_views(errs@) == entry_errors(items.take(at as int), files@),
            found@.len() == at <==> entries_ok(items.take(at as int), files@),
            found@.len() == at ==> views(found@) == entry_files(items.take(at as int), files@),
        decreases sequence.len() - at,
    {
        let ghost before = items.take(at as int);
        let ghost after = items.take(at + 1);
        assert(after[at as int] == items[at as int]);
        assert(forall|i: int| 0 <= i < at ==> after[i] == before[i]);
        let entry = match sequence[at].as_mapping() {
            Some(mapping) => get_file_from_mapping(mapping, files),
            None => Err(FileParseErr::ItemNotMapping(get_type(&sequence[at]))),
        };
        assert(result_view(entry) == entry_of(items[at as int], files@));
        let ghost was_ok = found@.len() == at;
        let ghost old_errs = errs@;
        let ghost old_found = found@;
        match entry {
            Ok(file) => {
                found.push(file);
                errs.push(None);
            },
            Err(error) => {
                errs.push(Some(error));
            },
        }
        proof {
            assert forall|i: int| 0 <= i < after.len() implies opt_views(errs@)[i] == entry_errors(
                after,
                files@,
            )[i] by {
                if i < at {
                    assert(errs@[i] == old_errs[i]);
                    assert(opt_views(old_errs)[i] == entry_errors(before, files@)[i]);
                }
            }
            assert(opt_views(errs@) =~= entry_errors(after, files@));
            if found@.len() == at + 1 {
                assert(was_ok);
                assert forall|i: int| 0 <= i < after.len() implies views(found@)[i] == entry_files(
                    after,
                    files@,
                )[i] by {
                    if i < at {
                        assert(found@[i] == old_found[i]);
                        assert(views(old_found)[i] == entry_files(before, files@)[i]);
                    }
                }
                assert forall|i: int| 0 <= i < after.len() implies (#[trigger] entry_of(
                    after[i],
                    files@,
                )) is Ok by {
                    if i < at {
                        assert(entry_of(before[i], files@) is Ok);
                    }
                }
                assert(views(found@) =~= entry_files(after, files@));
            } else {
                if entries_ok(after, files@) {
                    assert(entry_of(after[at as int], files@) is Ok);
                    assert forall|i: int| 0 <= i < before.len() implies (#[trigger] entry_of(
                        before[i],
                        files@,
                    )) is Ok by {
                        assert(entry_of(after[i], files@) is Ok);
                    }
                }
            }
        }
        at += 1;
    }
    assert(items.take(at as int) == items);
    if found.len() == errs.len() {
        Ok(Files::new(found))
    } else {
        Err(FileErrors::EntryErrors(errs))
    }
}

/// The path whose contents one item of the list asks for, where it asks
/// for any.
pub open spec fn wanted_of(item: Tree) -> Option<Seq<char>> {
    match item.as_mapping() {
        None => None,
        Some(entries) => wanted_path(entries),
    }
}

/// The paths whose contents the items ask for, in the order of the items.
pub open spec fn wanted_in(items: Seq<Tree>) -> Seq<Seq<char>>
    decreases items.len(),
{
    if items.len() == 0 {
        seq![]
    } else {
        match wanted_of(items.last()) {
            Some(path) => wanted_in(items.drop_last()).push(path),
            None => wanted_in(items.drop_last()),
        }
    }
}

/// The paths whose contents the file list `tree` asks for, in the order of
/// its items. A node that is no list asks for none.
pub open spec fn wanted_by_files(tree: Tree) -> Seq<Seq<char>> {
    match tree.as_sequence() {
        None => seq![],
        Some(items) => wanted_in(items),
    }
}

/// The paths whose contents the file list `value` asks for.
pub fn file_requests(value: &Node) -> (paths: Vec<String>)
    ensures
        views(paths@) == wanted_by_files(value@),
{
    let mut paths: Vec<String> = Vec::new();
    assert(views(paths@) =~= seq![]);
    let sequence = match value.as_sequence() {
        Some(sequence) => sequence,
        None => {
            return paths;
        },
    };
    let ghost items = trees(sequence@);
    let mut at: usize = 0;
    while at < sequence.len()
        invariant
            at <= sequence.len(),
            items == trees(sequence@),
            views(paths@) == wanted_in(items.take(at as int)),
        decreases sequence.len() - at,
    {
        let ghost before = items.take(at as int);
        let ghost after = items.take(at + 1);
        let ghost old_paths = views(paths@);
        assert(after.drop_last() == before);
        assert(after.last() == items[at as int]);
        if let Some(mapping) = sequence[at].as_mapping() {
            if let Some(path) = wanted(mapping) {
                paths.push(path);
                assert(views(paths@) =~= old_paths.push(path@));
            }
        }
        at += 1;
    }
    assert(items.take(at as int) == items);
    paths
}

/// Each path that an item asks for is among those that the list asks for.
pub proof fn lemma_wanted_in_holds(items: Seq<Tree>, at: int)
    requires
        0 <= at < items.len(),
        wanted_of(items[at]) is Some,
    ensures
        wanted_in(items).contains(wanted_of(items[at])->Some_0),
    decreases items.len(),
{
    let front = items.drop_last();
    let all = wanted_in(items);
    if at == items.len() - 1 {
        assert(all[all.len() - 1] == wanted_of(items[at])->Some_0);
    } else {
        lemma_wanted_in_holds(front, at);
        let path = wanted_of(front[at])->Some_0;
        let place = choose|k: int| 0 <= k < wanted_in(front).len() && wanted_in(front)[k] == path;
        assert(all[place] == path);
    }
}

/// A file list depends on the files only by the paths that it asks for: two
/// snapshots that say the same of each of these paths make the same of the
/// list.
pub proof fn lemma_files_read_wanted_only(
    tree: Tree,
    files: Seq<(Seq<char>, Reading)>,
    others: Seq<(Seq<char>, Reading)>,
)
    requires
        forall|path: Seq<char>| #[trigger]
            wanted_by_files(tree).contains(path) ==> read(files, path) == read(others, path),
    ensures
        files_of(tree, files) == files_of(tree, others),
{
    if let Some(items) = tree.as_sequence() {
        assert forall|i: int| 0 <= i < items.len() implies #[trigger] entry_of(items[i], files)
            == entry_of(items[i], others) by {
            if let Some(entries) = items[i].as_mapping() {
                if wanted_path(entries) is Some {
                    lemma_wanted_in_holds(items, i);
                    assert(wanted_by_files(tree).contains(wanted_path(entries)->Some_0));
                }
                lemma_entry_reads_wanted_only(entries, files, others);
            }
        }
        assert(entry_errors(items, files) =~= entry_errors(items, others));
        assert(entry_files(items, files) =~= entry_files(items, others));
        if entries_ok(items, files) {
            assert forall|i: int| 0 <= i < items.len() implies (#[trigger] entry_of(
                items[i],
                others,
            )) is Ok by {
                assert(entry_of(items[i], files) is Ok);
            }
        }
        if entries_ok(items, others) {
            assert forall|i: int| 0 <= i < items.len() implies (#[trigger] entry_of(
                items[i],
                files,
            )) is Ok by {
                assert(entry_of(items[i], others) is Ok);
            }
        }
    }
}

/// A list that validation lets through holds one well-formed file for each
/// item of the document, in the order of the items.
pub proof fn lemma_files_well_formed(tree: Tree, files: Seq<(Seq<char>, Reading)>)
    ensures
        files_of(tree, files) matches Ok(list) ==> {
            &&& tree.as_sequence() matches Some(items)
            &&& list.len() == items.len()
            &&& forall|i: int| 0 <= i < list.len() ==> (#[trigger] list[i]).well_formed()
        },
        files_of(tree, files) matches Err(FileErrorsView::EntryErrors(errors)) ==> {
            &&& tree.as_sequence() matches Some(items)
            &&& errors.len() == items.len()
            &&& exists|i: int| 0 <= i < errors.len() && (#[trigger] errors[i]) is Some
        },
{
    if let Some(items) = tree.as_sequence() {
        if entries_ok(items, files) {
            let list = entry_files(items, files);
            assert forall|i: int| 0 <= i < list.len() implies (#[trigger] list[i]).well_formed() by {
                assert(entry_of(items[i], files) is Ok);
                if let Some(entries) = items[i].as_mapping() {
                    lemma_file_well_formed(entries, files);
                }
            }
        } else {
            let errors = entry_errors(items, files);
            let bad = choose|i: int| 0 <= i < items.len() && !((#[trigger] entry_of(
                items[i],
                files,
            )) is Ok);
            assert(errors[bad] is Some);
        }
    }
}

} // verus!
