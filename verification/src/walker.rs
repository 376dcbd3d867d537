//! Tree Walker decisions: what to do at each directory entry, how a
//! failing document is handled, and the run's summary.
//!
//! The walk itself — visiting entries, creating directories, reading and
//! writing files — is I/O and lives with the caller; every decision it
//! acts on is computed and specified here. A directory entry is mirrored
//! whatever becomes of any document; a file entry is rendered and written
//! only when rendering succeeds in full.

use vstd::prelude::*;

use crate::paths::join_path;
use crate::paths::join_path_spec;
use crate::paths::FileHandle;

verus! {

/// Error-tolerance policy of the walk, for per-document conditions.
#[derive(Clone, Copy, Debug, PartialEq, Eq, Structural)]
pub enum WalkPolicy {
    /// A failing document aborts the whole run.
    AbortOnError,
    /// A failing document is skipped with a diagnostic; the walk goes on
    /// and the run's summary reports the skips.
    SkipAndContinue,
}

/// What the walker meets at one directory entry.
#[derive(Clone, Copy, Debug, PartialEq, Eq, Structural)]
pub enum EntryKind {
    /// A directory (or a link resolving to one).
    Directory,
    /// A file (or a link resolving to one).
    File,
}

/// The walker's decision for one entry.
pub enum EntryPlan {
    /// Create this directory under the output root; an already existing
    /// one is not an error.
    CreateDir(String),
    /// Load, render and — only on success — write this file at its
    /// mirrored output path, then copy its assets.
    RenderFile(FileHandle),
}

/// Decides one entry of the walk. The decision depends on the entry
/// alone: a directory is mirrored even when a document beside or below it
/// fails, and a file's mirror is written at the same root-relative path.
pub fn plan_entry(kind: EntryKind, in_dir: &str, out_dir: &str, rel: &str) -> (r: EntryPlan)
    ensures
        kind == EntryKind::Directory ==> (r matches EntryPlan::CreateDir(p) && p@ == join_path_spec(
            out_dir@,
            rel@,
        )),
        kind == EntryKind::File ==> (r matches EntryPlan::RenderFile(h) && h.file@ == rel@
            && h.in_dir@ == in_dir@ && h.out_dir@ == out_dir@),
{
    match kind {
        EntryKind::Directory => EntryPlan::CreateDir(join_path(out_dir, rel)),
        EntryKind::File => EntryPlan::RenderFile(
            FileHandle { file: rel.to_owned(), in_dir: in_dir.to_owned(), out_dir: out_dir.to_owned() },
        ),
    }
}

/// Whether the walk goes on after one document failed. Every condition
/// this crate types is content-class, so the policy alone decides.
pub fn continue_after_failure(policy: WalkPolicy) -> (r: bool)
    ensures
        r == (policy == WalkPolicy::SkipAndContinue),
{
    match policy {
        WalkPolicy::AbortOnError => false,
        WalkPolicy::SkipAndContinue => true,
    }
}

/// The run's summary: how many documents rendered, how many were skipped,
/// and one diagnostic per skip.
pub struct RunSummary {
    /// Documents rendered and written.
    pub rendered: usize,
    /// Documents skipped over a per-document condition.
    pub skipped: usize,
    /// One report per skipped document.
    pub diagnostics: Vec<String>,
}

impl RunSummary {
    /// A summary with nothing recorded.
    pub fn new() -> (r: Self)
        ensures
            r.rendered == 0,
            r.skipped == 0,
            r.diagnostics@.len() == 0,
    {
        RunSummary { rendered: 0, skipped: 0, diagnostics: Vec::new() }
    }

    /// Records one rendered document.
    pub fn record_rendered(&mut self)
        requires
            old(self).rendered < usize::MAX,
        ensures
            final(self).rendered == old(self).rendered + 1,
            final(self).skipped == old(self).skipped,
            final(self).diagnostics == old(self).diagnostics,
    {
        self.rendered = self.rendered + 1;
    }

    /// Records one skipped document with its diagnostic.
    pub fn record_skipped(&mut self, diagnostic: String)
        requires
            old(self).skipped < usize::MAX,
        ensures
            final(self).skipped == old(self).skipped + 1,
            final(self).rendered == old(self).rendered,
            final(self).diagnostics@ == old(self).diagnostics@.push(diagnostic),
    {
        self.skipped = self.skipped + 1;
        self.diagnostics.push(diagnostic);
    }

    /// Whether the run ends with a success exit status: it does exactly
    /// when no document was skipped.
    pub fn success(&self) -> (b: bool)
        ensures
            b == (self.skipped == 0),
    {
        self.skipped == 0
    }
}

} // verus!
