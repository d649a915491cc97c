//! The enumerator's decision logic: a depth-first walk over directory
//! entries, driven through an explicit work stack.
//!
//! The walker never touches the filesystem. The caller probes the
//! filesystem, describes what it saw as [`Entry`] values, and obeys the
//! [`Step`] the walker hands back: when a directory reaches the front of
//! the work, the walker asks for its listing, and the caller feeds it in
//! with [`Walker::feed_listing`]. Because a listing is put back at the
//! front, the walk is pre-order and depth-first: a subdirectory's contents
//! come out before the entries that follow it in its parent.

use vstd::prelude::*;

use crate::record::MyFile;
use crate::warnings::Warning;

verus! {

/// What the caller saw when it probed one directory entry or one root.
#[derive(Debug, PartialEq, Eq)]
pub enum Entry {
    /// A directory, to be descended into.
    Dir { path: String },
    /// A regular file whose name was decoded and whose size on disk was
    /// read.
    File { path: String, name: String, size_bytes: u64 },
    /// An entry whose name could not be decoded or whose size could not be
    /// read; it becomes a warning and is skipped.
    Unreadable { path: String },
    /// A root directory that does not exist; it becomes a warning and is
    /// skipped, and the walk goes on with the other roots.
    MissingRoot { path: String },
}

/// What the walker asks of its caller after one step.
#[derive(Debug, PartialEq, Eq)]
pub enum Step {
    /// An entry was consumed; step again.
    Continue,
    /// The named directory is next: read its listing and feed it in, in
    /// the order the directory gave it.
    ReadDir { path: String },
    /// No work is left.
    Done,
}

/// The state of one walk: the entries still to process (the first element
/// of `pending` is next), the records built so far, and the warnings
/// gathered so far, each in the order it was met.
pub struct Walker {
    pub pending: Vec<Entry>,
    pub records: Vec<MyFile>,
    pub warnings: Vec<Warning>,
}

impl Walker {
    /// Starts a walk over the given roots, in input order.
    pub fn new(roots: Vec<Entry>) -> (w: Walker)
        ensures
            w.pending@ == roots@,
            w.records@ == Seq::<MyFile>::empty(),
            w.warnings@ == Seq::<Warning>::empty(),
    {
        Walker { pending: roots, records: Vec::new(), warnings: Vec::new() }
    }

    /// Consumes the front entry of the pending work, if any: a file becomes
    /// a record, an unreadable entry or a missing root becomes a warning
    /// and nothing else, and a directory is handed back so the caller can
    /// list it. One bad entry never stops the walk: the rest of the pending
    /// work stays to be processed.
    pub fn step(&mut self) -> (s: Step)
        ensures
            old(self).pending@.len() == 0 ==> {
                &&& s is Done
                &&& final(self).pending@ == old(self).pending@
                &&& final(self).records@ == old(self).records@
                &&& final(self).warnings@ == old(self).warnings@
            },
            old(self).pending@.len() > 0 ==> final(self).pending@ == old(self).pending@.drop_first(),
            old(self).pending@.len() > 0 ==> (old(self).pending@[0] matches Entry::File {
                path,
                name,
                size_bytes,
            } ==> {
                &&& s is Continue
                &&& final(self).records@ == old(self).records@.push(
                    (MyFile { path, name, size_bytes }),
                )
                &&& final(self).warnings@ == old(self).warnings@
            }),
            old(self).pending@.len() > 0 ==> (old(self).pending@[0] matches Entry::Unreadable {
                path,
            } ==> {
                &&& s is Continue
                &&& final(self).records@ == old(self).records@
                &&& final(self).warnings@ == old(self).warnings@.push(
                    (Warning::UnreadableEntry { path }),
                )
            }),
            old(self).pending@.len() > 0 ==> (old(self).pending@[0] matches Entry::MissingRoot {
                path,
            } ==> {
                &&& s is Continue
                &&& final(self).records@ == old(self).records@
                &&& final(self).warnings@ == old(self).warnings@.push((Warning::MissingRoot { path }))
            }),
            old(self).pending@.len() > 0 ==> (old(self).pending@[0] matches Entry::Dir { path } ==> {
                &&& s == (Step::ReadDir { path })
                &&& final(self).records@ == old(self).records@
                &&& final(self).warnings@ == old(self).warnings@
            }),
    {
        if self.pending.len() == 0 {
            return Step::Done;
        }
        let entry = self.pending.remove(0);
        proof {
            assert(self.pending@ =~= old(self).pending@.drop_first());
        }
        match entry {
            Entry::Dir { path } => Step::ReadDir { path },
            Entry::File { path, name, size_bytes } => {
                self.records.push(MyFile { path, name, size_bytes });
                Step::Continue
            },
            Entry::Unreadable { path } => {
                self.warnings.push(Warning::UnreadableEntry { path });
                Step::Continue
            },
            Entry::MissingRoot { path } => {
                self.warnings.push(Warning::MissingRoot { path });
                Step::Continue
            },
        }
    }

    /// Puts a directory's listing at the front of the pending work, in
    /// listing order, so the subtree is walked before the entries that
    /// followed the directory in its parent.
    pub fn feed_listing(&mut self, listing: Vec<Entry>)
        ensures
            final(self).pending@ == listing@ + old(self).pending@,
            final(self).records@ == old(self).records@,
            final(self).warnings@ == old(self).warnings@,
    {
        let mut rest = listing;
        rest.append(&mut self.pending);
        self.pending = rest;
    }

    /// Hands out what the walk produced: the records and the warnings, each
    /// in the order it was met.
    pub fn finish(self) -> (r: (Vec<MyFile>, Vec<Warning>))
        ensures
            r.0@ == self.records@,
            r.1@ == self.warnings@,
    {
        (self.records, self.warnings)
    }
}

/// A root that does not exist contributes no record and stops nothing: the
/// step consumes it into a single warning and leaves every sibling root
/// pending, to be processed next.
pub proof fn lemma_missing_root_is_skipped(
    before: Walker,
    after: Walker,
    s: Step,
    path: String,
    siblings: Seq<Entry>,
)
    requires
        before.pending@ == seq![(Entry::MissingRoot { path })] + siblings,
        after.pending@ == before.pending@.drop_first(),
        s is Continue,
        after.records@ == before.records@,
        after.warnings@ == before.warnings@.push((Warning::MissingRoot { path })),
    ensures
        after.records@.len() == before.records@.len(),
        after.pending@ == siblings,
{
    assert(after.pending@ =~= siblings);
}

} // verus!
