//! Lists of strings: authors, hints, and the names of categories.

pub mod structs;

use vstd::prelude::*;
use crate::node::{trees, Node, Tree};
use crate::structs::{get_type, type_of, ValueType};
use crate::views::views;

verus! {

/// What is wrong with a list of strings.
#[derive(Debug, Clone, PartialEq)]
pub enum ListError {
    /// The node is not a list but a node of this kind.
    NotASequence(ValueType),
    /// The node is a list, and some of its items are no strings. These are
    /// the kinds of those items, in their order.
    BadElements(Vec<ValueType>),
}

/// The mathematical value of a [`ListError`].
#[verifier::ext_equal]
pub enum ListErrorView {
    NotASequence(ValueType),
    BadElements(Seq<ValueType>),
}

impl View for ListError {
    type V = ListErrorView;

    open spec fn view(&self) -> ListErrorView {
        match self {
            ListError::NotASequence(kind) => ListErrorView::NotASequence(*kind),
            ListError::BadElements(kinds) => ListErrorView::BadElements(kinds@),
        }
    }
}

/// The places of the items that are no strings, in rising order.
pub open spec fn bad_places(items: Seq<Tree>) -> Seq<int>
    decreases items.len(),
{
    if items.len() == 0 {
        seq![]
    } else if items.last().as_str() is Some {
        bad_places(items.drop_last())
    } else {
        bad_places(items.drop_last()).push(items.len() - 1)
    }
}

/// The kinds of the items that are no strings, in the order of the items.
pub open spec fn bad_kinds(items: Seq<Tree>) -> Seq<ValueType>
    decreases items.len(),
{
    if items.len() == 0 {
        seq![]
    } else if items.last().as_str() is Some {
        bad_kinds(items.drop_last())
    } else {
        bad_kinds(items.drop_last()).push(type_of(items.last()))
    }
}

/// The texts of the items that are strings, in the order of the items.
pub open spec fn good_texts(items: Seq<Tree>) -> Seq<Seq<char>>
    decreases items.len(),
{
    if items.len() == 0 {
        seq![]
    } else if items.last().as_str() is Some {
        good_texts(items.drop_last()).push(items.last().as_str()->Some_0)
    } else {
        good_texts(items.drop_last())
    }
}

/// The strings that the node `tree` lists, or what is wrong with it. The
/// node has to be a list, and each of its items a string.
pub open spec fn string_list_of(tree: Tree) -> Result<Seq<Seq<char>>, ListErrorView> {
    match tree.as_sequence() {
        None => Err(ListErrorView::NotASequence(type_of(tree))),
        Some(items) => if bad_kinds(items).len() == 0 {
            Ok(good_texts(items))
        } else {
            Err(ListErrorView::BadElements(bad_kinds(items)))
        },
    }
}

/// The error of a list names every item that is no string, and no other:
/// `bad_places` holds, in rising order, exactly the places of the items
/// that are no strings, and `bad_kinds` holds the kind of the item at each
/// of these places. The items that are strings are all the others.
pub proof fn lemma_bad_elements(items: Seq<Tree>)
    ensures
        bad_kinds(items).len() == bad_places(items).len(),
        good_texts(items).len() + bad_kinds(items).len() == items.len(),
        forall|k: int|
            0 <= k < bad_places(items).len() ==> {
                let place = #[trigger] bad_places(items)[k];
                &&& 0 <= place < items.len()
                &&& items[place].as_str() is None
                &&& bad_kinds(items)[k] == type_of(items[place])
            },
        forall|j: int, k: int|
            0 <= j < k < bad_places(items).len() ==> bad_places(items)[j] < bad_places(items)[k],
        forall|i: int|
            0 <= i < items.len() && items[i].as_str() is None ==> bad_places(items).contains(i),
    decreases items.len(),
{
    if items.len() > 0 {
        let front = items.drop_last();
        lemma_bad_elements(front);
        let places = bad_places(items);
        assert forall|k: int| 0 <= k < places.len() implies {
            let place = #[trigger] places[k];
            &&& 0 <= place < items.len()
            &&& items[place].as_str() is None
            &&& bad_kinds(items)[k] == type_of(items[place])
        } by {
            if k < bad_places(front).len() {
                let place = bad_places(front)[k];
                assert(places[k] == place);
                assert(items[place] == front[place]);
            }
        }
        assert forall|j: int, k: int| 0 <= j < k < places.len() implies places[j] < places[k] by {
            if k < bad_places(front).len() {
                assert(places[j] == bad_places(front)[j]);
                assert(places[k] == bad_places(front)[k]);
            } else {
                let place = bad_places(front)[j];
                assert(places[j] == place);
                assert(place < front.len());
            }
        }
        assert forall|i: int| 0 <= i < items.len() && items[i].as_str() is None implies places.contains(
            i,
        ) by {
            if i < front.len() {
                assert(front[i] == items[i]);
                assert(bad_places(front).contains(i));
                let k = choose|k: int| 0 <= k < bad_places(front).len() && bad_places(front)[k] == i;
                assert(places[k] == i);
            } else {
                assert(places[places.len() - 1] == i);
            }
        }
    }
}

/// A list is right exactly when none of its items is named as bad.
pub proof fn lemma_all_strings(items: Seq<Tree>)
    ensures
        bad_kinds(items).len() == 0 <==> (forall|i: int|
            0 <= i < items.len() ==> (#[trigger] items[i]).as_str() is Some),
        bad_kinds(items).len() == 0 ==> good_texts(items).len() == items.len() && (forall|i: int|
            0 <= i < items.len() ==> (#[trigger] good_texts(items)[i]) == items[i].as_str()->Some_0),
    decreases items.len(),
{
    if items.len() > 0 {
        let front = items.drop_last();
        lemma_all_strings(front);
        lemma_bad_elements(items);
        lemma_bad_elements(front);
        if bad_kinds(items).len() == 0 {
            assert forall|i: int| 0 <= i < items.len() implies (#[trigger] items[i]).as_str() is Some by {
                if i < front.len() {
                    assert(front[i] == items[i]);
                }
            }
            assert forall|i: int| 0 <= i < items.len() implies (#[trigger] good_texts(items)[i])
                == items[i].as_str()->Some_0 by {
                if i < front.len() {
                    assert(front[i] == items[i]);
                    assert(good_texts(items)[i] == good_texts(front)[i]);
                }
            }
        } else {
            if forall|i: int| 0 <= i < items.len() ==> (#[trigger] items[i]).as_str() is Some {
                assert(items[items.len() - 1].as_str() is Some);
                assert forall|i: int| 0 <= i < front.len() implies (#[trigger] front[i]).as_str() is Some by {
                    assert(front[i] == items[i]);
                }
            }
        }
    }
}

/// The strings that `value` lists, or what is wrong with it.
pub fn parse_string_list(value: &Node) -> (list: Result<Vec<String>, ListError>)
    ensures
        string_list_of(value@) == (match list {
            Ok(names) => Ok(views(names@)),
            Err(error) => Err(error@),
        }),
{
    let sequence = match value.as_sequence() {
        Some(sequence) => sequence,
        None => {
            return Err(ListError::NotASequence(get_type(value)));
        },
    };
    let ghost items = trees(sequence@);
    let mut names: Vec<String> = Vec::new();
    let mut kinds: Vec<ValueType> = Vec::new();
    let mut at: usize = 0;
    while at < sequence.len()
        invariant
            at <= sequence.len(),
            items == trees(sequence@),
            views(names@) == good_texts(items.take(at as int)),
            kinds@ == bad_kinds(items.take(at as int)),
        decreases sequence.len() - at,
    {
        let ghost before = items.take(at as int);
        let ghost after = items.take(at + 1);
        let ghost old_names = names@;
        assert(after.drop_last() == before);
        assert(after.last() == items[at as int]);
        match sequence[at].as_str() {
            Some(text) => {
                names.push(text.to_owned());
                assert(views(names@) =~= views(old_names).push(text@));
            },
            None => {
                kinds.push(get_type(&sequence[at]));
            },
        }
        at += 1;
    }
    assert(items.take(at as int) == items);
    if kinds.len() == 0 {
        Ok(names)
    } else {
        Err(ListError::BadElements(kinds))
    }
}

/// A list of strings of one attribute, with the errors of that attribute.
pub trait StrList: Sized {
    /// What is wrong with the attribute.
    type Error;

    /// The strings that the list holds.
    spec fn strings(&self) -> Seq<Seq<char>>;

    /// Whether `error` says that the items of these kinds are no strings.
    spec fn is_mismatch(error: &Self::Error, kinds: Seq<ValueType>) -> bool;

    /// Whether `error` says that the attribute is no list but of this kind.
    spec fn is_not_sequence(error: &Self::Error, kind: ValueType) -> bool;

    /// The list that holds `names`.
    fn from_iter(names: Vec<String>) -> (list: Result<Self, Self::Error>)
        ensures
            list matches Ok(held) && held.strings() == views(names@),
    ;

    /// The error for items of these kinds that are no strings.
    fn from_value_mismatch(kinds: Vec<ValueType>) -> (error: Self::Error)
        ensures
            Self::is_mismatch(&error, kinds@),
    ;

    /// The error for an attribute that is no list but of this kind.
    fn not_sequence(type_enum: ValueType) -> (error: Self::Error)
        ensures
            Self::is_not_sequence(&error, type_enum),
    ;
}

/// The list of strings that `value` holds, as the attribute `T`, or what is
/// wrong with it.
pub fn as_str_list<T: StrList>(value: &Node) -> (list: Result<T, T::Error>)
    ensures
        match string_list_of(value@) {
            Ok(names) => list matches Ok(held) && held.strings() == names,
            Err(ListErrorView::NotASequence(kind)) => list matches Err(error) && T::is_not_sequence(
                &error,
                kind,
            ),
            Err(ListErrorView::BadElements(kinds)) => list matches Err(error) && T::is_mismatch(
                &error,
                kinds,
            ),
        },
{
    match parse_string_list(value) {
        Ok(names) => T::from_iter(names),
        Err(ListError::NotASequence(kind)) => Err(T::not_sequence(kind)),
        Err(ListError::BadElements(kinds)) => Err(T::from_value_mismatch(kinds)),
    }
}

} // verus!
