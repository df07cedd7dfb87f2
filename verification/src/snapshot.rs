//! The value handed to callers: one file's content at HEAD and on disk.

use vstd::prelude::*;

verus! {

/// Result of resolving a file for a diff: content at HEAD (`original`),
/// content in the working directory (`current`), and a flag for each side
/// saying whether the file exists there.
#[derive(Clone)]
pub struct GitFileDiff {
    /// Content of the file at HEAD; empty when absent at HEAD.
    pub original: String,
    /// Content of the file on disk; empty when absent on disk.
    pub current: String,
    /// Whether a tree entry for the file existed at HEAD.
    pub exists_at_head: bool,
    /// Whether the file exists on disk.
    pub exists_in_workdir: bool,
}

/// The mathematical value of a snapshot.
pub struct SnapshotModel {
    pub original: Seq<char>,
    pub current: Seq<char>,
    pub exists_at_head: bool,
    pub exists_in_workdir: bool,
}

impl View for GitFileDiff {
    type V = SnapshotModel;

    open spec fn view(&self) -> SnapshotModel {
        SnapshotModel {
            original: self.original@,
            current: self.current@,
            exists_at_head: self.exists_at_head,
            exists_in_workdir: self.exists_in_workdir,
        }
    }
}

/// A snapshot is well formed when each absent side carries empty content.
pub open spec fn snapshot_wf(s: SnapshotModel) -> bool {
    &&& !s.exists_at_head ==> s.original.len() == 0
    &&& !s.exists_in_workdir ==> s.current.len() == 0
}

} // verus!
