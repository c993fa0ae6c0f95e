//! The authors and the hints of a challenge.

use vstd::prelude::*;
use vstd::string::*;
use crate::structs::{kind_text, ValueType};
use crate::views::views;
use super::StrList;

verus! {

/// The authors of a challenge.
#[derive(Debug, Default, Clone, PartialEq)]
pub struct Authors(Vec<String>);

/// What is wrong with the `authors` attribute.
#[derive(Debug, Clone, PartialEq)]
pub enum AuthorError {
    /// Some items are no strings; these are their kinds, in order.
    BadEntryType(Vec<ValueType>),
    /// The attribute is not a list but a node of this kind.
    BadType(ValueType),
    /// The document has no `authors`.
    MissingKey,
}

/// The mathematical value of an [`AuthorError`].
#[verifier::ext_equal]
pub enum AuthorErrorView {
    BadEntryType(Seq<ValueType>),
    BadType(ValueType),
    MissingKey,
}

impl View for AuthorError {
    type V = AuthorErrorView;

    open spec fn view(&self) -> AuthorErrorView {
        match self {
            AuthorError::BadEntryType(kinds) => AuthorErrorView::BadEntryType(kinds@),
            AuthorError::BadType(kind) => AuthorErrorView::BadType(*kind),
            AuthorError::MissingKey => AuthorErrorView::MissingKey,
        }
    }
}

impl Default for AuthorError {
    fn default() -> (error: AuthorError)
        ensures
            error@ == AuthorErrorView::MissingKey,
    {
        AuthorError::MissingKey
    }
}

impl View for Authors {
    type V = Seq<Seq<char>>;

    closed spec fn view(&self) -> Seq<Seq<char>> {
        views(self.0@)
    }
}

impl StrList for Authors {
    type Error = AuthorError;

    open spec fn strings(&self) -> Seq<Seq<char>> {
        self@
    }

    open spec fn is_mismatch(error: &AuthorError, kinds: Seq<ValueType>) -> bool {
        error@ == AuthorErrorView::BadEntryType(kinds)
    }

    open spec fn is_not_sequence(error: &AuthorError, kind: ValueType) -> bool {
        error@ == AuthorErrorView::BadType(kind)
    }

    fn from_iter(names: Vec<String>) -> (list: Result<Authors, AuthorError>) {
        Ok(Authors(names))
    }

    fn from_value_mismatch(kinds: Vec<ValueType>) -> (error: AuthorError) {
        AuthorError::BadEntryType(kinds)
    }

    fn not_sequence(type_enum: ValueType) -> (error: AuthorError) {
        AuthorError::BadType(type_enum)
    }
}

impl Authors {
    /// The names of the authors, in order.
    pub fn iter(&self) -> (names: Vec<&str>)
        ensures
            names@.len() == self@.len(),
            forall|i: int| 0 <= i < names@.len() ==> names@[i]@ == self@[i],
    {
        let mut names: Vec<&str> = Vec::new();
        let mut at: usize = 0;
        while at < self.0.len()
            invariant
                at <= self.0.len(),
                names@.len() == at,
                forall|i: int| 0 <= i < at ==> names@[i]@ == self@[i],
            decreases self.0.len() - at,
        {
            names.push(self.0[at].as_str());
            at += 1;
        }
        names
    }

    /// The names of the authors, in order.
    pub fn slice(&self) -> (names: &[String])
        ensures
            views(names@) == self@,
    {
        self.0.as_slice()
    }
}

/// The hints of a challenge.
#[derive(Debug, Default, Clone, PartialEq)]
pub struct Hints(Vec<String>);

/// What is wrong with the `hints` attribute.
#[derive(Debug, Clone, PartialEq)]
pub enum HintError {
    /// Some items are no strings; these are their kinds, in order.
    BadEntryType(Vec<ValueType>),
    /// The attribute is not a list but a node of this kind.
    BadType(ValueType),
    /// The document has no `hints`.
    MissingKey,
}

/// The mathematical value of a [`HintError`].
#[verifier::ext_equal]
pub enum HintErrorView {
    BadEntryType(Seq<ValueType>),
    BadType(ValueType),
    MissingKey,
}

impl View for HintError {
    type V = HintErrorView;

    open spec fn view(&self) -> HintErrorView {
        match self {
            HintError::BadEntryType(kinds) => HintErrorView::BadEntryType(kinds@),
            HintError::BadType(kind) => HintErrorView::BadType(*kind),
            HintError::MissingKey => HintErrorView::MissingKey,
        }
    }
}

impl Default for HintError {
    fn default() -> (error: HintError)
        ensures
            error@ == HintErrorView::MissingKey,
    {
        HintError::MissingKey
    }
}

impl View for Hints {
    type V = Seq<Seq<char>>;

    closed spec fn view(&self) -> Seq<Seq<char>> {
        views(self.0@)
    }
}

impl StrList for Hints {
    type Error = HintError;

    open spec fn strings(&self) -> Seq<Seq<char>> {
        self@
    }

    open spec fn is_mismatch(error: &HintError, kinds: Seq<ValueType>) -> bool {
        error@ == HintErrorView::BadEntryType(kinds)
    }

    open spec fn is_not_sequence(error: &HintError, kind: ValueType) -> bool {
        error@ == HintErrorView::BadType(kind)
    }

    fn from_iter(names: Vec<String>) -> (list: Result<Hints, HintError>) {
        Ok(Hints(names))
    }

    fn from_value_mismatch(kinds: Vec<ValueType>) -> (error: HintError) {
        HintError::BadEntryType(kinds)
    }

    fn not_sequence(type_enum: ValueType) -> (error: HintError) {
        HintError::BadType(type_enum)
    }
}

impl Hints {
    /// The list without hints.
    pub fn empty() -> (hints: Hints)
        ensures
            hints@ == Seq::<Seq<char>>::empty(),
    {
        let hints = Hints(Vec::new());
        assert(hints@ =~= Seq::<Seq<char>>::empty());
        hints
    }

    /// The hints, in order.
    pub fn iter(&self) -> (hints: Vec<&str>)
        ensures
            hints@.len() == self@.len(),
            forall|i: int| 0 <= i < hints@.len() ==> hints@[i]@ == self@[i],
    {
        let mut hints: Vec<&str> = Vec::new();
        let mut at: usize = 0;
        while at < self.0.len()
            invariant
                at <= self.0.len(),
                hints@.len() == at,
                forall|i: int| 0 <= i < at ==> hints@[i]@ == self@[i],
            decreases self.0.len() - at,
        {
            hints.push(self.0[at].as_str());
            at += 1;
        }
        hints
    }

    /// The hints, in order.
    pub fn slice(&self) -> (hints: &[String])
        ensures
            views(hints@) == self@,
    {
        self.0.as_slice()
    }
}

impl AuthorErrorView {
    /// What the error says to the author of the document.
    pub open spec fn message(self) -> Seq<char> {
        match self {
            AuthorErrorView::BadEntryType(_) => "Author names must be strings.\n"@,
            AuthorErrorView::BadType(kind) => "Authors should be a list, not "@ + kind_text(
                kind.type_enum,
            ) + ".\n"@,
            AuthorErrorView::MissingKey => "You have to define `authors`.\n"@,
        }
    }
}

impl AuthorError {
    /// What the error says to the author of the document.
    pub fn message(&self) -> (text: String)
        ensures
            text@ == self@.message(),
    {
        match self {
            AuthorError::BadEntryType(_) => "Author names must be strings.\n".to_owned(),
            AuthorError::BadType(kind) => {
                let mut text = "Authors should be a list, not ".to_owned();
                text.append(kind.get_str());
                text.append(".\n");
                text
            },
            AuthorError::MissingKey => "You have to define `authors`.\n".to_owned(),
        }
    }
}

/// `names` with a comma and a blank between each two of them.
pub open spec fn joined(names: Seq<Seq<char>>) -> Seq<char>
    decreases names.len(),
{
    if names.len() == 0 {
        seq![]
    } else if names.len() == 1 {
        names[0]
    } else {
        joined(names.drop_last()) + ", "@ + names.last()
    }
}

/// Writes `names` with a comma and a blank between each two of them.
pub fn join(names: &[String]) -> (text: String)
    ensures
        text@ == joined(views(names@)),
{
    let ghost all = views(names@);
    let mut text = String::new();
    let mut at: usize = 0;
    assert(text@ =~= joined(all.take(0)));
    while at < names.len()
        invariant
            at <= names.len(),
            all == views(names@),
            text@ == joined(all.take(at as int)),
        decreases names.len() - at,
    {
        let ghost before = all.take(at as int);
        let ghost after = all.take(at + 1);
        assert(after.drop_last() == before);
        assert(after.last() == names@[at as int]@);
        if at > 0 {
            text.append(", ");
        }
        text.append(names[at].as_str());
        assert(text@ =~= joined(after));
        at += 1;
    }
    assert(all.take(at as int) == all);
    text
}

impl Authors {
    /// The authors as a short line for a reader.
    pub open spec fn rendered(names: Seq<Seq<char>>) -> Seq<char> {
        "Authors< "@ + joined(names) + " >"@
    }

    /// The authors as a short line for a reader.
    pub fn render(&self) -> (text: String)
        ensures
            text@ == Self::rendered(self@),
    {
        let mut text = "Authors< ".to_owned();
        text.append(join(self.slice()).as_str());
        text.append(" >");
        text
    }
}

impl HintErrorView {
    /// What the error says to the author of the document.
    pub open spec fn message(self) -> Seq<char> {
        match self {
            HintErrorView::BadEntryType(_) => "Hints must be strings.\n"@,
            HintErrorView::BadType(kind) => "Hints should be in a list, not "@ + kind_text(
                kind.type_enum,
            ) + ".\n"@,
            HintErrorView::MissingKey => "You have to define `hints`.\n"@,
        }
    }
}

impl HintError {
    /// What the error says to the author of the document.
    pub fn message(&self) -> (text: String)
        ensures
            text@ == self@.message(),
    {
        match self {
            HintError::BadEntryType(_) => "Hints must be strings.\n".to_owned(),
            HintError::BadType(kind) => {
                let mut text = "Hints should be in a list, not ".to_owned();
                text.append(kind.get_str());
                text.append(".\n");
                text
            },
            HintError::MissingKey => "You have to define `hints`.\n".to_owned(),
        }
    }
}

} // verus!
