//! The copy run against the real filesystem, as a state machine.
//!
//! The caller performs the filesystem work — listing the source directory
//! and moving the bytes of one file — and reports each outcome; the session
//! decides everything else: which entry is copied next, under which
//! destination path, and that the run stops on the first failure. A failed
//! listing aborts before any file is written; a failed copy aborts with the
//! earlier entries copied and the later ones untouched, and nothing copied
//! is ever removed.

use vstd::prelude::*;
use crate::naming::{dest_path, dest_path_of};

verus! {

/// Where a copy run stands: waiting for the source listing, copying entry
/// by entry, finished with every entry copied, or aborted on the first
/// failure.
#[derive(Clone, Copy, PartialEq, Eq, Structural, Debug)]
pub enum Phase {
    Listing,
    Copying,
    Completed,
    Aborted,
}

/// One unit of filesystem work the session hands out: copy the bytes of
/// the source entry named `source_name` to the file at `dest_path`.
#[derive(Debug)]
pub struct CopyJob {
    pub source_name: String,
    pub dest_path: String,
}

/// One flat-copy run. Entries are processed in listing order; the run
/// aborts on the first reported failure and never rolls back.
pub struct CopySession {
    dest_dir: String,
    names: Vec<String>,
    next: usize,
    phase: Phase,
}

/// The destination paths of the first `k` entries: what is on disk once
/// `k` copies have succeeded.
pub open spec fn job_dest_paths(dest_dir: Seq<char>, names: Seq<Seq<char>>, k: int) -> Seq<
    Seq<char>,
> {
    names.take(k).map(|i: int, n: Seq<char>| dest_path_of(dest_dir, n))
}

impl CopySession {
    /// The destination directory string of this run.
    pub closed spec fn dest(&self) -> Seq<char> {
        self.dest_dir@
    }

    /// The base names of the listed source entries, in listing order.
    pub closed spec fn entry_names(&self) -> Seq<Seq<char>> {
        self.names.deep_view()
    }

    /// How many entries have been copied so far.
    pub closed spec fn copied(&self) -> nat {
        self.next as nat
    }

    /// Where the run stands.
    pub closed spec fn phase_of(&self) -> Phase {
        self.phase
    }

    /// The destination paths of the files this run has written.
    pub open spec fn copied_dest_paths(&self) -> Seq<Seq<char>> {
        job_dest_paths(self.dest(), self.entry_names(), self.copied() as int)
    }

    /// Internal consistency of a run: at most every entry is copied,
    /// before the listing nothing is, and a completed run copied them all.
    pub closed spec fn wf(&self) -> bool {
        &&& self.next <= self.names@.len()
        &&& (self.phase is Listing ==> self.names@.len() == 0 && self.next == 0)
        &&& (self.phase is Completed ==> self.next == self.names@.len())
    }

    /// Starts a run into the given destination directory; the source
    /// listing has not happened yet, so nothing is copied.
    pub fn begin(dest_dir: String) -> (s: Self)
        ensures
            s.wf(),
            s.phase_of() is Listing,
            s.dest() == dest_dir@,
            s.copied() == 0,
    {
        CopySession { dest_dir, names: Vec::new(), next: 0, phase: Phase::Listing }
    }

    /// Reports the source listing: the base names of its entries, in the
    /// order the filesystem produced them. The run moves on to copying;
    /// nothing is copied yet.
    pub fn listing_succeeded(&mut self, names: Vec<String>)
        requires
            old(self).wf(),
            old(self).phase_of() is Listing,
        ensures
            final(self).wf(),
            final(self).phase_of() is Copying,
            final(self).dest() == old(self).dest(),
            final(self).entry_names() == names.deep_view(),
            final(self).copied() == 0,
    {
        self.names = names;
        self.phase = Phase::Copying;
    }

    /// Reports that the source directory could not be listed. The run
    /// aborts at once, before any file is written.
    pub fn listing_failed(&mut self)
        requires
            old(self).wf(),
            old(self).phase_of() is Listing,
        ensures
            final(self).wf(),
            final(self).phase_of() is Aborted,
            final(self).copied() == 0,
            final(self).copied_dest_paths().len() == 0,
    {
        self.phase = Phase::Aborted;
    }

    /// Hands out the next unit of work: the first entry not yet copied,
    /// with its destination path formed by concatenating the destination
    /// directory string and the entry's base name. Once every entry has
    /// been copied, the run completes and there is no further work.
    pub fn next_job(&mut self) -> (job: Option<CopyJob>)
        requires
            old(self).wf(),
            old(self).phase_of() is Copying,
        ensures
            final(self).wf(),
            final(self).dest() == old(self).dest(),
            final(self).entry_names() == old(self).entry_names(),
            final(self).copied() == old(self).copied(),
            if old(self).copied() < old(self).entry_names().len() {
                &&& final(self).phase_of() is Copying
                &&& job is Some
                &&& job->0.source_name@ == old(self).entry_names()[old(self).copied() as int]
                &&& job->0.dest_path@ == dest_path_of(
                    old(self).dest(),
                    old(self).entry_names()[old(self).copied() as int],
                )
            } else {
                &&& final(self).phase_of() is Completed
                &&& job is None
            },
    {
        if self.next < self.names.len() {
            let name = &self.names[self.next];
            let path = dest_path(self.dest_dir.as_str(), name.as_str());
            Some(CopyJob { source_name: name.clone(), dest_path: path })
        } else {
            self.phase = Phase::Completed;
            None
        }
    }

    /// Reports that the current entry's bytes were copied: the run keeps
    /// everything already written and moves to the next entry.
    pub fn job_succeeded(&mut self)
        requires
            old(self).wf(),
            old(self).phase_of() is Copying,
            old(self).copied() < old(self).entry_names().len(),
        ensures
            final(self).wf(),
            final(self).phase_of() is Copying,
            final(self).dest() == old(self).dest(),
            final(self).entry_names() == old(self).entry_names(),
            final(self).copied() == old(self).copied() + 1,
    {
        // the listing length is a usize, so one more copied entry still fits
        let _n: usize = self.names.len();
        self.next = self.next + 1;
    }

    /// Reports that copying the current entry failed. The whole run aborts
    /// there: the entries already copied stay on disk exactly as written —
    /// no rollback — and no later entry is processed.
    pub fn job_failed(&mut self)
        requires
            old(self).wf(),
            old(self).phase_of() is Copying,
            old(self).copied() < old(self).entry_names().len(),
        ensures
            final(self).wf(),
            final(self).phase_of() is Aborted,
            final(self).dest() == old(self).dest(),
            final(self).entry_names() == old(self).entry_names(),
            final(self).copied() == old(self).copied(),
            final(self).copied_dest_paths() == old(self).copied_dest_paths(),
    {
        self.phase = Phase::Aborted;
    }

    /// Where the run stands, for the caller driving the filesystem work.
    pub fn phase(&self) -> (p: Phase)
        ensures
            p == self.phase_of(),
    {
        self.phase
    }

    /// How many entries have been copied so far.
    pub fn copied_count(&self) -> (n: usize)
        ensures
            n as nat == self.copied(),
    {
        self.next
    }
}

/// Law: a run that aborts once `k` entries are copied leaves the
/// destination holding exactly the files of the first `k` entries: each
/// entry before the failure has its destination file, and — when the
/// entries' names are distinct, as the children of one directory are — no
/// entry at or after the failure has one. Nothing is cleaned up.
pub proof fn lemma_abort_no_rollback(dest_dir: Seq<char>, names: Seq<Seq<char>>, k: int)
    requires
        0 <= k <= names.len(),
        forall|i: int, j: int|
            0 <= i < names.len() && 0 <= j < names.len() && i != j ==> names[i] != names[j],
    ensures
        job_dest_paths(dest_dir, names, k).len() == k,
        forall|i: int| 0 <= i < k ==> job_dest_paths(dest_dir, names, k)[i] == dest_path_of(
            dest_dir,
            names[i],
        ),
        forall|i: int|
            k <= i < names.len() ==> !job_dest_paths(dest_dir, names, k).contains(
                dest_path_of(dest_dir, names[i]),
            ),
{
    let written = job_dest_paths(dest_dir, names, k);
    assert forall|i: int|
        k <= i < names.len() implies !written.contains(dest_path_of(dest_dir, names[i])) by {
        if written.contains(dest_path_of(dest_dir, names[i])) {
            let j = choose|j: int|
                0 <= j < written.len() && written[j] == dest_path_of(dest_dir, names[i]);
            crate::naming::lemma_dest_path_injective(dest_dir, names[j], names[i]);
        }
    }
}

/// Law: a run aborted before its first copy — in particular one whose
/// source directory could not be listed — has written no destination file.
pub proof fn lemma_abort_writes_nothing(dest_dir: Seq<char>, names: Seq<Seq<char>>)
    ensures
        job_dest_paths(dest_dir, names, 0).len() == 0,
{
}

} // verus!
