//! The order of a removal: the item's directory, then its manifest,
//! whatever becomes of either.

use crate::layout::{build_paths, paths_spec, InstallPaths, PathsView};
use vstd::prelude::*;

verus! {

/// The outside step that is due.
#[derive(Clone, Debug, PartialEq, Eq)]
pub enum RemoveAction {
    /// Remove the item's directory with all that it holds.
    RemoveDirectory { path: String },
    /// Remove the item's manifest.
    RemoveFile { path: String },
    /// Nothing: the removal is complete.
    Nothing,
}

/// What became of the two deletions.
#[derive(Clone, Copy, Debug, PartialEq, Eq, Structural)]
pub struct RemovalReport {
    pub directory_removed: bool,
    pub manifest_removed: bool,
}

/// Where a removal stands.
#[derive(Clone, Debug, PartialEq, Eq)]
pub enum Removal {
    /// The item's directory is to be removed.
    Directory { paths: InstallPaths },
    /// The item's manifest is to be removed.
    Manifest { paths: InstallPaths, directory_removed: bool },
    /// Both deletions were attempted.
    Done(RemovalReport),
}

/// An action as plain values.
pub enum RemoveActionView {
    RemoveDirectory { path: Seq<char> },
    RemoveFile { path: Seq<char> },
    Nothing,
}

/// A removal's state as plain values.
pub enum RemovalView {
    Directory { paths: PathsView },
    Manifest { paths: PathsView, directory_removed: bool },
    Done(RemovalReport),
}

impl View for RemoveAction {
    type V = RemoveActionView;

    open spec fn view(&self) -> RemoveActionView {
        match *self {
            RemoveAction::RemoveDirectory { path } => RemoveActionView::RemoveDirectory {
                path: path@,
            },
            RemoveAction::RemoveFile { path } => RemoveActionView::RemoveFile { path: path@ },
            RemoveAction::Nothing => RemoveActionView::Nothing,
        }
    }
}

impl View for Removal {
    type V = RemovalView;

    open spec fn view(&self) -> RemovalView {
        match *self {
            Removal::Directory { paths } => RemovalView::Directory { paths: paths@ },
            Removal::Manifest { paths, directory_removed } => RemovalView::Manifest {
                paths: paths@,
                directory_removed,
            },
            Removal::Done(report) => RemovalView::Done(report),
        }
    }
}

/// The state in which the removal of an item begins.
pub open spec fn removal_start(home: Seq<char>, item_id: u32) -> RemovalView {
    RemovalView::Directory { paths: paths_spec(home, item_id) }
}

/// The deletion that is due in a state.
pub open spec fn pending_removal(state: RemovalView) -> RemoveActionView {
    match state {
        RemovalView::Directory { paths } => RemoveActionView::RemoveDirectory {
            path: paths.target_dir,
        },
        RemovalView::Manifest { paths, .. } => RemoveActionView::RemoveFile {
            path: paths.mod_file,
        },
        RemovalView::Done(_) => RemoveActionView::Nothing,
    }
}

/// The state that follows once the deletion that was due has been
/// attempted; `removed` says whether it succeeded. A failure is noted and
/// holds nothing up.
pub open spec fn remove_step(state: RemovalView, removed: bool) -> RemovalView {
    match state {
        RemovalView::Directory { paths } => RemovalView::Manifest {
            paths,
            directory_removed: removed,
        },
        RemovalView::Manifest { directory_removed, .. } => RemovalView::Done(
            RemovalReport { directory_removed, manifest_removed: removed },
        ),
        RemovalView::Done(report) => RemovalView::Done(report),
    }
}

impl Removal {
    /// The removal of item `item_id` of the user whose home directory is
    /// `home`, with nothing attempted yet.
    pub fn new(home: &str, item_id: u32) -> (state: Removal)
        ensures
            state@ == removal_start(home@, item_id),
    {
        Removal::Directory { paths: build_paths(home, item_id) }
    }

    /// The deletion that is due.
    pub fn pending(&self) -> (action: RemoveAction)
        ensures
            action@ == pending_removal(self@),
    {
        match self {
            Removal::Directory { paths } => RemoveAction::RemoveDirectory {
                path: paths.target_dir.clone(),
            },
            Removal::Manifest { paths, .. } => RemoveAction::RemoveFile {
                path: paths.mod_file.clone(),
            },
            Removal::Done(_) => RemoveAction::Nothing,
        }
    }

    /// Takes note of whether the deletion that was due succeeded.
    pub fn advance(self, removed: bool) -> (next: Removal)
        ensures
            next@ == remove_step(self@, removed),
    {
        match self {
            Removal::Directory { paths } => Removal::Manifest { paths, directory_removed: removed },
            Removal::Manifest { directory_removed, .. } => Removal::Done(
                RemovalReport { directory_removed, manifest_removed: removed },
            ),
            Removal::Done(report) => Removal::Done(report),
        }
    }

    /// What became of the two deletions, once both were attempted.
    pub fn report(&self) -> (r: Option<RemovalReport>)
        ensures
            r == match self@ {
                RemovalView::Done(report) => Some(report),
                _ => None,
            },
    {
        match self {
            Removal::Done(report) => Some(*report),
            _ => None,
        }
    }
}

/// A removal never fails and never stops half-way: whatever becomes of the
/// directory, the manifest is attempted next, and whatever becomes of that,
/// the removal is complete and reports both. So it is for an item that was
/// never installed, where both deletions fail, and for any repeat.
pub proof fn lemma_removal_always_completes(
    home: Seq<char>,
    item_id: u32,
    directory_removed: bool,
    manifest_removed: bool,
)
    ensures
        pending_removal(removal_start(home, item_id)) == (RemoveActionView::RemoveDirectory {
            path: paths_spec(home, item_id).target_dir,
        }),
        pending_removal(remove_step(removal_start(home, item_id), directory_removed)) == (
        RemoveActionView::RemoveFile { path: paths_spec(home, item_id).mod_file }),
        remove_step(
            remove_step(removal_start(home, item_id), directory_removed),
            manifest_removed,
        ) == RemovalView::Done(RemovalReport { directory_removed, manifest_removed }),
{
}

} // verus!
