//! Categories and the set of names that are known as categories.

use vstd::prelude::*;
use vstd::string::*;
use crate::lists::structs::{join, joined};
use crate::structs::{kind_text, ValueType};
use crate::text::{lemma_first_index, split_at_first, split_once, str_eq};
use crate::views::views;

verus! {

/// The pieces of `text` between its commas, in order. A text without a
/// comma is one piece, the empty text too.
pub open spec fn split_list(text: Seq<char>) -> Seq<Seq<char>>
    decreases text.len(),
    via split_list_decreases
{
    match split_once(text, ',') {
        None => seq![text],
        Some((head, rest)) => seq![head] + split_list(rest),
    }
}

#[via_fn]
proof fn split_list_decreases(text: Seq<char>) {
    lemma_first_index(text, ',');
}

/// The names that are known as categories.
#[derive(Debug, Clone, PartialEq)]
pub struct CategorySet {
    names: Vec<String>,
}

impl View for CategorySet {
    type V = Seq<Seq<char>>;

    closed spec fn view(&self) -> Seq<Seq<char>> {
        views(self.names@)
    }
}

impl CategorySet {
    /// The set of these names.
    pub fn new(names: Vec<String>) -> (set: CategorySet)
        ensures
            set@ == views(names@),
    {
        CategorySet { names }
    }

    /// The set of the names that `list` holds between its commas.
    pub fn from_list(list: &str) -> (set: CategorySet)
        ensures
            set@ == split_list(list@),
    {
        let mut names: Vec<String> = Vec::new();
        let mut rest: &str = list;
        loop
            invariant_except_break
                views(names@) + split_list(rest@) == split_list(list@),
            ensures
                views(names@) == split_list(list@),
            decreases rest@.len(),
        {
            let ghost before = views(names@);
            proof {
                lemma_first_index(rest@, ',');
            }
            match split_at_first(rest, ',') {
                Some((head, tail)) => {
                    names.push(head.to_owned());
                    assert(views(names@) =~= before.push(head@));
                    assert(before.push(head@) + split_list(tail@) =~= before + (seq![head@]
                        + split_list(tail@)));
                    rest = tail;
                },
                None => {
                    names.push(rest.to_owned());
                    assert(views(names@) =~= before.push(rest@));
                    assert(before.push(rest@) =~= before + seq![rest@]);
                    break ;
                },
            }
        }
        CategorySet { names }
    }

    /// Whether `name` is known as a category.
    pub fn contains(&self, name: &str) -> (known: bool)
        ensures
            known == self@.contains(name@),
    {
        let mut at: usize = 0;
        while at < self.names.len()
            invariant
                at <= self.names.len(),
                forall|i: int| 0 <= i < at ==> self@[i] != name@,
            decreases self.names.len() - at,
        {
            if str_eq(self.names[at].as_str(), name) {
                assert(self@[at as int] == name@);
                return true;
            }
            at += 1;
        }
        false
    }

    /// The known names, in order.
    pub fn slice(&self) -> (names: &[String])
        ensures
            views(names@) == self@,
    {
        self.names.as_slice()
    }
}

/// A category: a name that was known as one when the category was made.
#[derive(Debug, Clone, PartialEq)]
pub struct Category {
    name: String,
}

impl View for Category {
    type V = Seq<char>;

    closed spec fn view(&self) -> Seq<char> {
        self.name@
    }
}

impl Category {
    /// The category named `name`, where `known` knows the name.
    pub fn new(name: &str, known: &CategorySet) -> (category: Option<Category>)
        ensures
            category matches Some(made) ==> known@.contains(name@) && made@ == name@,
            category is None ==> !known@.contains(name@),
    {
        if known.contains(name) {
            Some(Category { name: name.to_owned() })
        } else {
            None
        }
    }

    /// The name of the category.
    pub fn as_str(&self) -> (name: &str)
        ensures
            name@ == self@,
    {
        self.name.as_str()
    }
}

/// The categories of a challenge, in the order in which the document lists
/// them.
#[derive(Debug, Default, Clone, PartialEq)]
pub struct Categories(Vec<Category>);

impl View for Categories {
    type V = Seq<Seq<char>>;

    closed spec fn view(&self) -> Seq<Seq<char>> {
        views(self.0@)
    }
}

impl Categories {
    /// The list that holds `categories`, in their order.
    pub(crate) fn new(categories: Vec<Category>) -> (list: Categories)
        ensures
            list@ == views(categories@),
    {
        Categories(categories)
    }

    /// The categories, in order.
    pub fn iter(&self) -> (categories: Vec<&Category>)
        ensures
            categories@.len() == self@.len(),
            forall|i: int| 0 <= i < categories@.len() ==> categories@[i]@ == self@[i],
    {
        let mut categories: Vec<&Category> = Vec::new();
        let mut at: usize = 0;
        while at < self.0.len()
            invariant
                at <= self.0.len(),
                categories@.len() == at,
                forall|i: int| 0 <= i < at ==> categories@[i]@ == self@[i],
            decreases self.0.len() - at,
        {
            categories.push(&self.0[at]);
            at += 1;
        }
        categories
    }

    /// The categories, in order.
    pub fn slice(&self) -> (categories: &[Category])
        ensures
            views(categories@) == self@,
    {
        self.0.as_slice()
    }
}

/// What is wrong with the `categories` attribute.
#[derive(Debug, Clone, PartialEq)]
pub enum CategoryError {
    /// Every item is a string, and some name no known category. These are
    /// those names, in order.
    InvalidCategories(Vec<String>),
    /// Some items are no strings; these are their kinds, in order.
    BadEntryType(Vec<ValueType>),
    /// The attribute is not a list but a node of this kind.
    BadType(ValueType),
    /// The document has no `categories`.
    MissingKey,
}

/// The mathematical value of a [`CategoryError`].
#[verifier::ext_equal]
pub enum CategoryErrorView {
    InvalidCategories(Seq<Seq<char>>),
    BadEntryType(Seq<ValueType>),
    BadType(ValueType),
    MissingKey,
}

impl View for CategoryError {
    type V = CategoryErrorView;

    open spec fn view(&self) -> CategoryErrorView {
        match self {
            CategoryError::InvalidCategories(names) => CategoryErrorView::InvalidCategories(
                views(names@),
            ),
            CategoryError::BadEntryType(kinds) => CategoryErrorView::BadEntryType(kinds@),
            CategoryError::BadType(kind) => CategoryErrorView::BadType(*kind),
            CategoryError::MissingKey => CategoryErrorView::MissingKey,
        }
    }
}

impl Default for CategoryError {
    fn default() -> (error: CategoryError)
        ensures
            error@ == CategoryErrorView::MissingKey,
    {
        CategoryError::MissingKey
    }
}

impl CategoryErrorView {
    /// What the error says to the author of the document.
    pub open spec fn message(self) -> Seq<char> {
        match self {
            CategoryErrorView::InvalidCategories(names) => "These categories are not known: "@
                + joined(names) + ".\n"@,
            CategoryErrorView::BadEntryType(_) => "Category names must be strings.\n"@,
            CategoryErrorView::BadType(kind) => "Categories should be a list, not "@ + kind_text(
                kind.type_enum,
            ) + ".\n"@,
            CategoryErrorView::MissingKey => "You have to define `categories`.\n"@,
        }
    }
}

impl CategoryError {
    /// What the error says to the author of the document.
    pub fn message(&self) -> (text: String)
        ensures
            text@ == self@.message(),
    {
        match self {
            CategoryError::InvalidCategories(names) => {
                let mut text = "These categories are not known: ".to_owned();
                text.append(join(names.as_slice()).as_str());
                text.append(".\n");
                text
            },
            CategoryError::BadEntryType(_) => "Category names must be strings.\n".to_owned(),
            CategoryError::BadType(kind) => {
                let mut text = "Categories should be a list, not ".to_owned();
                text.append(kind.get_str());
                text.append(".\n");
                text
            },
            CategoryError::MissingKey => "You have to define `categories`.\n".to_owned(),
        }
    }
}

} // verus!
