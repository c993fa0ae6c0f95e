//! The `categories` attribute: a list of names, each of them known as a
//! category.

pub mod structs;

use vstd::prelude::*;
use crate::lists::{parse_string_list, string_list_of, ListError, ListErrorView};
use crate::node::{Node, Tree};
use crate::views::{result_view, views};
pub use self::structs::{Categories, Category, CategoryError, CategoryErrorView, CategorySet};

verus! {

/// The names among `names` that `known` does not hold, in order.
pub open spec fn unknown_names(names: Seq<Seq<char>>, known: Seq<Seq<char>>) -> Seq<Seq<char>>
    decreases names.len(),
{
    if names.len() == 0 {
        seq![]
    } else if known.contains(names.last()) {
        unknown_names(names.drop_last(), known)
    } else {
        unknown_names(names.drop_last(), known).push(names.last())
    }
}

/// The categories that the node `tree` lists, or what is wrong with it. The
/// node has to be a list of strings. Only such a list is held against the
/// known names; each of its strings has to be one of them.
pub open spec fn categories_of(tree: Tree, known: Seq<Seq<char>>) -> Result<
    Seq<Seq<char>>,
    CategoryErrorView,
> {
    match string_list_of(tree) {
        Err(ListErrorView::NotASequence(kind)) => Err(CategoryErrorView::BadType(kind)),
        Err(ListErrorView::BadElements(kinds)) => Err(CategoryErrorView::BadEntryType(kinds)),
        Ok(names) => if unknown_names(names, known).len() == 0 {
            Ok(names)
        } else {
            Err(CategoryErrorView::InvalidCategories(unknown_names(names, known)))
        },
    }
}

/// No name is unknown exactly when every name is known.
pub proof fn lemma_all_known(names: Seq<Seq<char>>, known: Seq<Seq<char>>)
    ensures
        unknown_names(names, known).len() == 0 <==> (forall|i: int|
            0 <= i < names.len() ==> known.contains(#[trigger] names[i])),
    decreases names.len(),
{
    if names.len() > 0 {
        let front = names.drop_last();
        lemma_all_known(front, known);
        if unknown_names(names, known).len() == 0 {
            assert forall|i: int| 0 <= i < names.len() implies known.contains(
                #[trigger] names[i],
            ) by {
                if i < front.len() {
                    assert(front[i] == names[i]);
                }
            }
        } else if forall|i: int| 0 <= i < names.len() ==> known.contains(#[trigger] names[i]) {
            assert(known.contains(names[names.len() - 1]));
            assert forall|i: int| 0 <= i < front.len() implies known.contains(
                #[trigger] front[i],
            ) by {
                assert(front[i] == names[i]);
            }
        }
    }
}

/// Every category that validation lets through is a known name.
pub proof fn lemma_categories_known(tree: Tree, known: Seq<Seq<char>>)
    ensures
        categories_of(tree, known) matches Ok(names) ==> forall|i: int|
            0 <= i < names.len() ==> known.contains(#[trigger] names[i]),
{
    if let Ok(names) = string_list_of(tree) {
        lemma_all_known(names, known);
    }
}

/// The categories that `value` lists, each of them known to `known`, or
/// what is wrong with the list.
pub fn value_to_categories(value: &Node, known: &CategorySet) -> (list: Result<
    Categories,
    CategoryError,
>)
    ensures
        result_view(list) == categories_of(value@, known@),
{
    let names = match parse_string_list(value) {
        Ok(names) => names,
        Err(ListError::NotASequence(kind)) => {
            return Err(CategoryError::BadType(kind));
        },
        Err(ListError::BadElements(kinds)) => {
            return Err(CategoryError::BadEntryType(kinds));
        },
    };
    let ghost all = views(names@);
    let mut categories: Vec<Category> = Vec::new();
    let mut unknown: Vec<String> = Vec::new();
    let mut at: usize = 0;
    while at < names.len()
        invariant
            at <= names.len(),
            all == views(names@),
            views(unknown@) == unknown_names(all.take(at as int), known@),
            unknown@.len() == 0 ==> views(categories@) == all.take(at as int),
        decreases names.len() - at,
    {
        let ghost before = all.take(at as int);
        let ghost after = all.take(at + 1);
        let ghost old_unknown = views(unknown@);
        let ghost old_categories = views(categories@);
        assert(after.drop_last() == before);
        assert(after.last() == names@[at as int]@);
        match Category::new(names[at].as_str(), known) {
            Some(category) => {
                categories.push(category);
                assert(views(categories@) =~= old_categories.push(after.last()));
                assert(before.push(after.last()) =~= after);
            },
            None => {
                unknown.push(names[at].clone());
                assert(views(unknown@) =~= old_unknown.push(after.last()));
            },
        }
        at += 1;
    }
    assert(all.take(at as int) == all);
    if unknown.len() == 0 {
        Ok(Categories::new(categories))
    } else {
        Err(CategoryError::InvalidCategories(unknown))
    }
}

} // verus!
