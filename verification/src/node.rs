//! The document tree.

use vstd::prelude::*;
use crate::text::str_eq;

verus! {

/// A node of a document.
#[derive(Debug, PartialEq)]
pub enum Node {
    Null,
    Bool(bool),
    /// A number; the payload is its value where it is a non-negative integer
    /// that fits sixty-four bits.
    Number(Option<u64>),
    String(String),
    Sequence(Vec<Node>),
    /// The entries of a map, in the order in which the document lists them.
    Mapping(Vec<(Node, Node)>),
    /// A node under a tag.
    Tagged(Box<Node>),
}

/// The mathematical value of a [`Node`].
#[verifier::ext_equal]
pub enum Tree {
    Null,
    Bool(bool),
    Number(Option<u64>),
    String(Seq<char>),
    Sequence(Seq<Tree>),
    Mapping(Seq<(Tree, Tree)>),
    Tagged(Box<Tree>),
}

impl Node {
    /// The mathematical value of this node.
    pub open spec fn tree(&self) -> Tree
        decreases self,
    {
        match self {
            Node::Null => Tree::Null,
            Node::Bool(b) => Tree::Bool(*b),
            Node::Number(n) => Tree::Number(*n),
            Node::String(s) => Tree::String(s@),
            Node::Sequence(items) => Tree::Sequence(
                Seq::new(
                    items@.len(),
                    |i: int|
                        if 0 <= i < items@.len() {
                            items@[i].tree()
                        } else {
                            Tree::Null
                        },
                ),
            ),
            Node::Mapping(entries) => Tree::Mapping(
                Seq::new(
                    entries@.len(),
                    |i: int|
                        if 0 <= i < entries@.len() {
                            (entries@[i].0.tree(), entries@[i].1.tree())
                        } else {
                            (Tree::Null, Tree::Null)
                        },
                ),
            ),
            Node::Tagged(inner) => Tree::Tagged(Box::new(inner.tree())),
        }
    }
}

impl View for Node {
    type V = Tree;

    open spec fn view(&self) -> Tree {
        self.tree()
    }
}

/// The values of `nodes`, one for one.
pub open spec fn trees(nodes: Seq<Node>) -> Seq<Tree> {
    Seq::new(nodes.len(), |i: int| nodes[i]@)
}

/// The values of the entries of a map, one for one.
pub open spec fn entry_trees(entries: Seq<(Node, Node)>) -> Seq<(Tree, Tree)> {
    Seq::new(entries.len(), |i: int| (entries[i].0@, entries[i].1@))
}

/// The value that a map holds under the text `key`: that of its first entry
/// whose key is a string equal to `key`.
pub open spec fn lookup(entries: Seq<(Tree, Tree)>, key: Seq<char>) -> Option<Tree>
    decreases entries.len(),
{
    if entries.len() == 0 {
        None
    } else if entries[0].0 == Tree::String(key) {
        Some(entries[0].1)
    } else {
        lookup(entries.drop_first(), key)
    }
}

impl Tree {
    /// The node below every tag.
    pub open spec fn untagged(self) -> Tree
        decreases self,
    {
        match self {
            Tree::Tagged(inner) => inner.untagged(),
            _ => self,
        }
    }

    /// The text of a string node, looking through tags.
    pub open spec fn as_str(self) -> Option<Seq<char>> {
        match self.untagged() {
            Tree::String(text) => Some(text),
            _ => None,
        }
    }

    /// The value of a boolean node, looking through tags.
    pub open spec fn as_bool(self) -> Option<bool> {
        match self.untagged() {
            Tree::Bool(b) => Some(b),
            _ => None,
        }
    }

    /// The value of a number node that is a non-negative integer, looking
    /// through tags.
    pub open spec fn as_u64(self) -> Option<u64> {
        match self.untagged() {
            Tree::Number(n) => n,
            _ => None,
        }
    }

    /// The items of a list node, looking through tags.
    pub open spec fn as_sequence(self) -> Option<Seq<Tree>> {
        match self.untagged() {
            Tree::Sequence(items) => Some(items),
            _ => None,
        }
    }

    /// The entries of a map node, looking through tags.
    pub open spec fn as_mapping(self) -> Option<Seq<(Tree, Tree)>> {
        match self.untagged() {
            Tree::Mapping(entries) => Some(entries),
            _ => None,
        }
    }
}

impl Node {
    /// The node below every tag.
    pub fn untagged(&self) -> (inner: &Node)
        ensures
            inner@ == self@.untagged(),
            !(inner@ is Tagged),
        decreases self,
    {
        match self {
            Node::Tagged(inner) => inner.untagged(),
            _ => self,
        }
    }

    /// The text of a string node, looking through tags.
    pub fn as_str(&self) -> (text: Option<&str>)
        ensures
            text matches Some(t) ==> self@.as_str() == Some(t@),
            text is None ==> self@.as_str() is None,
    {
        match self.untagged() {
            Node::String(text) => Some(text.as_str()),
            _ => None,
        }
    }

    /// The value of a boolean node, looking through tags.
    pub fn as_bool(&self) -> (value: Option<bool>)
        ensures
            value == self@.as_bool(),
    {
        match self.untagged() {
            Node::Bool(b) => Some(*b),
            _ => None,
        }
    }

    /// The value of a number node that is a non-negative integer, looking
    /// through tags.
    pub fn as_u64(&self) -> (value: Option<u64>)
        ensures
            value == self@.as_u64(),
    {
        match self.untagged() {
            Node::Number(n) => *n,
            _ => None,
        }
    }

    /// The items of a list node, looking through tags.
    pub fn as_sequence(&self) -> (items: Option<&Vec<Node>>)
        ensures
            items matches Some(list) ==> self@.as_sequence() == Some(trees(list@)),
            items is None ==> self@.as_sequence() is None,
    {
        match self.untagged() {
            Node::Sequence(items) => {
                assert(trees(items@) =~= self@.untagged()->Sequence_0);
                Some(items)
            },
            _ => None,
        }
    }

    /// The entries of a map node, looking through tags.
    pub fn as_mapping(&self) -> (entries: Option<&Vec<(Node, Node)>>)
        ensures
            entries matches Some(list) ==> self@.as_mapping() == Some(entry_trees(list@)),
            entries is None ==> self@.as_mapping() is None,
    {
        match self.untagged() {
            Node::Mapping(entries) => {
                assert(entry_trees(entries@) =~= self@.untagged()->Mapping_0);
                Some(entries)
            },
            _ => None,
        }
    }
}

/// The node that a map holds under the text `key`.
pub fn get<'a>(entries: &'a Vec<(Node, Node)>, key: &str) -> (found: Option<&'a Node>)
    ensures
        found matches Some(node) ==> lookup(entry_trees(entries@), key@) == Some(node@),
        found is None ==> lookup(entry_trees(entries@), key@) is None,
{
    let ghost all = entry_trees(entries@);
    let mut at: usize = 0;
    assert(all.skip(0) == all);
    while at < entries.len()
        invariant
            at <= entries.len(),
            all == entry_trees(entries@),
            lookup(all, key@) == lookup(all.skip(at as int), key@),
        decreases entries.len() - at,
    {
        let ghost rest = all.skip(at as int);
        assert(rest[0] == all[at as int]);
        assert(rest.drop_first() == all.skip(at + 1));
        let hit = match &entries[at].0 {
            Node::String(name) => str_eq(name.as_str(), key),
            _ => false,
        };
        if hit {
            return Some(&entries[at].1);
        }
        at += 1;
    }
    None
}

} // verus!
