//! The files beneath the base directory of a document, as they were found.
//!
//! The library reads no file itself. Whoever calls it looks up the paths
//! that a document names and records what came of each in a [`Snapshot`];
//! validation then goes by the snapshot alone.

use vstd::prelude::*;
use vstd::utf8::*;
use crate::text::str_eq;

verus! {

/// What came of reading one file.
#[derive(Debug, Clone, PartialEq, Eq)]
pub enum ReadOutcome {
    /// The file was read; these are its bytes.
    Found(Vec<u8>),
    /// There is no file at the path.
    Missing,
    /// The file could not be read for another reason.
    Failed,
}

/// The mathematical value of a [`ReadOutcome`].
#[verifier::ext_equal]
pub enum Reading {
    Found(Seq<u8>),
    Missing,
    Failed,
}

impl View for ReadOutcome {
    type V = Reading;

    open spec fn view(&self) -> Reading {
        match self {
            ReadOutcome::Found(bytes) => Reading::Found(bytes@),
            ReadOutcome::Missing => Reading::Missing,
            ReadOutcome::Failed => Reading::Failed,
        }
    }
}

/// One file of a snapshot: its path as documents write it, and what came of
/// reading it.
#[derive(Debug, Clone, PartialEq, Eq)]
pub struct Capture {
    pub path: String,
    pub outcome: ReadOutcome,
}

impl View for Capture {
    type V = (Seq<char>, Reading);

    open spec fn view(&self) -> (Seq<char>, Reading) {
        (self.path@, self.outcome@)
    }
}

/// The files beneath a base directory, as they were found.
#[derive(Debug, Clone, PartialEq, Eq)]
pub struct Snapshot {
    pub captures: Vec<Capture>,
}

impl View for Snapshot {
    type V = Seq<(Seq<char>, Reading)>;

    open spec fn view(&self) -> Seq<(Seq<char>, Reading)> {
        Seq::new(self.captures@.len(), |i: int| self.captures@[i]@)
    }
}

/// What a snapshot says of the file at `path`: the outcome of its first
/// capture of that path, and `Missing` where it has none.
pub open spec fn read(files: Seq<(Seq<char>, Reading)>, path: Seq<char>) -> Reading
    decreases files.len(),
{
    if files.len() == 0 {
        Reading::Missing
    } else if files[0].0 == path {
        files[0].1
    } else {
        read(files.drop_first(), path)
    }
}

impl Snapshot {
    /// A snapshot of a directory without files.
    pub fn new() -> (snapshot: Snapshot)
        ensures
            snapshot@ == Seq::<(Seq<char>, Reading)>::empty(),
    {
        let snapshot = Snapshot { captures: Vec::new() };
        assert(snapshot@ =~= Seq::<(Seq<char>, Reading)>::empty());
        snapshot
    }

    /// Adds what came of reading the file at `path`. A path that the
    /// snapshot holds already keeps its first outcome.
    pub fn record(&mut self, path: String, outcome: ReadOutcome)
        ensures
            final(self)@ == old(self)@.push((path@, outcome@)),
    {
        self.captures.push(Capture { path, outcome });
        assert(self@ =~= old(self)@.push((path@, outcome@)));
    }

    /// What the snapshot says of the file at `path`.
    pub fn read(&self, path: &str) -> (outcome: ReadOutcome)
        ensures
            outcome@ == read(self@, path@),
    {
        let ghost all = self@;
        let mut at: usize = 0;
        assert(all.skip(0) == all);
        while at < self.captures.len()
            invariant
                at <= self.captures.len(),
                all == self@,
                read(all, path@) == read(all.skip(at as int), path@),
            decreases self.captures.len() - at,
        {
            let ghost rest = all.skip(at as int);
            assert(rest[0] == all[at as int]);
            assert(rest.drop_first() == all.skip(at + 1));
            if str_eq(self.captures[at].path.as_str(), path) {
                return copy_outcome(&self.captures[at].outcome);
            }
            at += 1;
        }
        ReadOutcome::Missing
    }
}

/// A copy of `bytes`.
pub fn copy_bytes(bytes: &Vec<u8>) -> (copy: Vec<u8>)
    ensures
        copy@ == bytes@,
{
    let mut copy: Vec<u8> = Vec::new();
    let mut at: usize = 0;
    while at < bytes.len()
        invariant
            at <= bytes.len(),
            copy@ == bytes@.take(at as int),
        decreases bytes.len() - at,
    {
        copy.push(bytes[at]);
        assert(copy@ =~= bytes@.take(at + 1));
        at += 1;
    }
    assert(bytes@.take(bytes.len() as int) =~= bytes@);
    copy
}

/// A copy of `outcome`.
pub fn copy_outcome(outcome: &ReadOutcome) -> (copy: ReadOutcome)
    ensures
        copy@ == outcome@,
{
    match outcome {
        ReadOutcome::Found(bytes) => ReadOutcome::Found(copy_bytes(bytes)),
        ReadOutcome::Missing => ReadOutcome::Missing,
        ReadOutcome::Failed => ReadOutcome::Failed,
    }
}

/// The text that `bytes` encode, where they are valid UTF-8.
pub open spec fn text_of(bytes: Seq<u8>) -> Option<Seq<char>> {
    if valid_utf8(bytes) {
        Some(decode_utf8(bytes))
    } else {
        None
    }
}

/// [`String::from_utf8`]: the text that the bytes encode where they are valid
/// UTF-8, and nothing where they are not.
#[verifier::external_body]
pub(crate) fn text_from_utf8(bytes: Vec<u8>) -> (text: Option<String>)
    ensures
        text matches Some(decoded) ==> text_of(bytes@) == Some(decoded@),
        text is None ==> text_of(bytes@) is None,
{
    String::from_utf8(bytes).ok()
}

} // verus!
