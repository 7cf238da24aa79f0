//! Archive normalization: finding the directory that wraps a whole archive
//! and laying out what is written where.

pub mod reader;
pub mod tree;

use crate::archive::reader::{read_entries, unpacked};
use vstd::prelude::*;

verus! {

/// Why an archive could not be unpacked.
#[derive(Clone, Copy, Debug, PartialEq, Eq, Structural)]
pub enum ExtractionError {
    /// The bytes are no archive.
    MalformedArchive,
    /// An entry of the archive cannot be read.
    UnreadableEntry,
    /// An entry could not be written to its place.
    WriteFailed,
}

/// One entry of an archive: a directory, or a file with its bytes.
#[derive(Clone, Debug, PartialEq, Eq)]
pub struct ArchiveEntry {
    /// The segments of the entry's path, outermost first.
    pub path: Vec<String>,
    pub is_directory: bool,
    /// The bytes of a file; empty for a directory.
    pub content: Vec<u8>,
}

/// An entry as plain values.
pub struct EntryView {
    pub path: Seq<Seq<char>>,
    pub is_directory: bool,
    pub content: Seq<u8>,
}

/// A path as plain text, segment by segment.
pub open spec fn path_view(path: Seq<String>) -> Seq<Seq<char>> {
    path.map_values(|segment: String| segment@)
}

impl View for ArchiveEntry {
    type V = EntryView;

    open spec fn view(&self) -> EntryView {
        EntryView {
            path: path_view(self.path@),
            is_directory: self.is_directory,
            content: self.content@,
        }
    }
}

/// The entries of an archive as plain values, in archive order.
pub open spec fn entry_views(entries: Seq<ArchiveEntry>) -> Seq<EntryView> {
    entries.map_values(|entry: ArchiveEntry| entry@)
}

/// Whether `path` lies under the top-level name `segment`.
pub open spec fn begins_with(path: Seq<Seq<char>>, segment: Seq<char>) -> bool {
    path.len() > 0 && path[0] == segment
}

/// Whether every path of an archive begins with `segment`.
pub open spec fn all_begin_with(entries: Seq<EntryView>, segment: Seq<char>) -> bool {
    forall|i: int| 0 <= i < entries.len() ==> begins_with(#[trigger] entries[i].path, segment)
}

/// The directory that wraps the whole archive, if there is one: the first
/// segment of the first entry's path, provided that the archive has at
/// least two entries and every entry's path begins with that segment.
pub open spec fn wrapper_of(entries: Seq<EntryView>) -> Option<Seq<char>> {
    if entries.len() >= 2 && entries[0].path.len() > 0 && all_begin_with(
        entries,
        entries[0].path[0],
    ) {
        Some(entries[0].path[0])
    } else {
        None
    }
}

/// Where an entry goes below the destination: its path without the
/// wrapper, where one is stripped, else its path as it is.
pub open spec fn relative_path(path: Seq<Seq<char>>, wrapper: Option<Seq<char>>) -> Seq<
    Seq<char>,
> {
    if wrapper is Some && path.len() > 0 {
        path.drop_first()
    } else {
        path
    }
}

/// An entry moved to where it goes below the destination.
pub open spec fn relocated(entry: EntryView, wrapper: Option<Seq<char>>) -> EntryView {
    EntryView {
        path: relative_path(entry.path, wrapper),
        is_directory: entry.is_directory,
        content: entry.content,
    }
}

/// Whether an entry is written at all: one with nothing left of its path
/// stands for the destination itself and is left out.
pub open spec fn is_written(entry: EntryView) -> bool {
    entry.path.len() > 0
}

/// What is written for an archive, in archive order: every entry moved to
/// its place, but for those with nothing left of their path.
pub open spec fn planned_entries(entries: Seq<EntryView>) -> Seq<EntryView> {
    let wrapper = wrapper_of(entries);
    entries.map_values(|entry: EntryView| relocated(entry, wrapper)).filter(
        |entry: EntryView| is_written(entry),
    )
}

/// What to write for an archive, and which wrapper was stripped to get
/// there.
#[derive(Clone, Debug, PartialEq, Eq)]
pub struct ExtractionPlan {
    /// The wrapping directory that was removed from every path, if any.
    pub strip_prefix: Option<String>,
    /// The entries to write, with paths relative to the destination.
    pub entries: Vec<ArchiveEntry>,
}

/// A plan as plain values.
pub struct PlanView {
    pub strip_prefix: Option<Seq<char>>,
    pub entries: Seq<EntryView>,
}

impl View for ExtractionPlan {
    type V = PlanView;

    open spec fn view(&self) -> PlanView {
        PlanView {
            strip_prefix: match self.strip_prefix {
                Some(segment) => Some(segment@),
                None => None,
            },
            entries: entry_views(self.entries@),
        }
    }
}

/// The plan for an archive with the given entries.
pub open spec fn plan_of(entries: Seq<EntryView>) -> PlanView {
    PlanView { strip_prefix: wrapper_of(entries), entries: planned_entries(entries) }
}

/// Finds the directory that wraps the whole archive, if there is one.
pub fn detect_wrapper(entries: &Vec<ArchiveEntry>) -> (wrapper: Option<String>)
    ensures
        match wrapper {
            Some(segment) => wrapper_of(entry_views(entries@)) == Some(segment@),
            None => wrapper_of(entry_views(entries@)) is None,
        },
{
    let ghost views = entry_views(entries@);
    if entries.len() < 2 {
        return None;
    }
    if entries[0].path.len() == 0 {
        assert(views[0].path.len() == 0);
        return None;
    }
    let candidate = entries[0].path[0].clone();
    assert(candidate@ == views[0].path[0]);
    let mut i: usize = 1;
    while i < entries.len()
        invariant
            1 <= i <= entries.len(),
            views == entry_views(entries@),
            views[0].path.len() > 0,
            candidate@ == views[0].path[0],
            forall|k: int| 0 <= k < i ==> begins_with(#[trigger] views[k].path, candidate@),
        decreases entries.len() - i,
    {
        let path = &entries[i].path;
        assert(views[i as int].path == path_view(path@));
        if path.len() == 0 || path[0] != candidate {
            assert(!begins_with(views[i as int].path, views[0].path[0]));
            return None;
        }
        i += 1;
    }
    Some(candidate)
}

/// Lays out what is written for an archive: detects the wrapping
/// directory, strips it from every path where there is one, and leaves out
/// the entries that have nothing left of their path. Order, kind and bytes
/// of the entries are kept.
pub fn plan_extraction(entries: Vec<ArchiveEntry>) -> (plan: ExtractionPlan)
    ensures
        plan@ == plan_of(entry_views(entries@)),
{
    let strip_prefix = detect_wrapper(&entries);
    let ghost views = entry_views(entries@);
    let ghost wrapper = wrapper_of(views);
    let ghost moved = views.map_values(|entry: EntryView| relocated(entry, wrapper));
    let ghost keep = |entry: EntryView| is_written(entry);
    let strip = strip_prefix.is_some();
    let mut written: Vec<ArchiveEntry> = Vec::new();
    assert(moved.take(0).filter(keep) =~= Seq::<EntryView>::empty());
    for entry in it: entries
        invariant
            views == entry_views(entries@),
            wrapper == wrapper_of(views),
            strip == (wrapper is Some),
            moved == views.map_values(|entry: EntryView| relocated(entry, wrapper)),
            keep == |entry: EntryView| is_written(entry),
            entry_views(written@) == moved.take(it.index() as int).filter(keep),
    {
        let ghost k = it.index() as int;
        let ArchiveEntry { mut path, is_directory, content } = entry;
        if strip {
            assert(begins_with(views[k].path, views[0].path[0]));
            path.remove(0);
        }
        proof {
            assert(path_view(path@) =~= relative_path(views[k].path, wrapper));
            assert(moved.take(k + 1) =~= moved.take(k).push(moved[k]));
            moved.take(k).lemma_filter_push(moved[k], keep);
        }
        if path.len() > 0 {
            let ghost before = written@;
            let kept = ArchiveEntry { path, is_directory, content };
            assert(kept@ == moved[k]);
            written.push(kept);
            assert(entry_views(written@) =~= entry_views(before).push(moved[k]));
        }
    }
    assert(moved.take(moved.len() as int) =~= moved);
    ExtractionPlan { strip_prefix, entries: written }
}

/// The plan for the archive that `bytes` hold, or why there is none.
pub open spec fn archive_plan(bytes: Seq<u8>) -> Result<PlanView, ExtractionError> {
    match unpacked(bytes) {
        Ok(entries) => Ok(plan_of(entries)),
        Err(e) => Err(e),
    }
}

/// Unpacks an archive held in memory and lays out what is written for it.
pub fn plan_archive(bytes: Vec<u8>) -> (r: Result<ExtractionPlan, ExtractionError>)
    ensures
        match r {
            Ok(plan) => archive_plan(bytes@) == Ok::<PlanView, ExtractionError>(plan@),
            Err(e) => archive_plan(bytes@) == Err::<PlanView, ExtractionError>(e),
        },
{
    match read_entries(bytes) {
        Ok(entries) => Ok(plan_extraction(entries)),
        Err(e) => Err(e),
    }
}

/// An entry with the first segment of its path removed.
pub open spec fn without_first_segment(entry: EntryView) -> EntryView {
    EntryView {
        path: entry.path.drop_first(),
        is_directory: entry.is_directory,
        content: entry.content,
    }
}

/// Where an archive has two entries or more and all its paths share their
/// first segment, that segment is stripped: what is written is the
/// archive's entries, each without that segment, and without the entries
/// that have nothing left of their path.
pub proof fn lemma_shared_wrapper_is_stripped(entries: Seq<EntryView>, segment: Seq<char>)
    requires
        entries.len() >= 2,
        all_begin_with(entries, segment),
    ensures
        plan_of(entries).strip_prefix == Some(segment),
        plan_of(entries).entries == entries.map_values(
            |entry: EntryView| without_first_segment(entry),
        ).filter(|entry: EntryView| is_written(entry)),
        forall|j: int|
            0 <= j < plan_of(entries).entries.len() ==> (#[trigger] plan_of(
                entries,
            ).entries[j]).path.len() > 0,
{
    let wrapper = wrapper_of(entries);
    assert(begins_with(entries[0].path, segment));
    assert forall|i: int| 0 <= i < entries.len() implies begins_with(
        #[trigger] entries[i].path,
        entries[0].path[0],
    ) by {
        assert(begins_with(entries[i].path, segment));
    }
    assert(wrapper == Some(segment));
    let moved = entries.map_values(|entry: EntryView| relocated(entry, wrapper));
    let stripped = entries.map_values(|entry: EntryView| without_first_segment(entry));
    assert(moved =~= stripped) by {
        assert forall|i: int| 0 <= i < entries.len() implies moved[i] == stripped[i] by {
            assert(begins_with(entries[i].path, segment));
        }
    }
    let keep = |entry: EntryView| is_written(entry);
    assert forall|j: int| 0 <= j < moved.filter(keep).len() implies (#[trigger] moved.filter(
        keep,
    )[j]).path.len() > 0 by {
        moved.lemma_filter_pred(keep, j);
    }
}

/// Where an archive has fewer than two entries, or its paths do not all
/// share their first segment, nothing is stripped: what is written is the
/// archive's entries under their own paths, without the entries whose path
/// is empty. An archive of non-empty paths is written exactly as it is.
pub proof fn lemma_no_wrapper_keeps_paths(entries: Seq<EntryView>)
    requires
        entries.len() < 2 || forall|segment: Seq<char>| !all_begin_with(entries, segment),
    ensures
        plan_of(entries).strip_prefix is None,
        plan_of(entries).entries == entries.filter(|entry: EntryView| is_written(entry)),
        (forall|i: int| 0 <= i < entries.len() ==> (#[trigger] entries[i]).path.len() > 0)
            ==> plan_of(entries).entries == entries,
{
    let wrapper = wrapper_of(entries);
    if wrapper is Some {
        assert(all_begin_with(entries, entries[0].path[0]));
    }
    let moved = entries.map_values(|entry: EntryView| relocated(entry, wrapper));
    assert(moved =~= entries);
    let keep = |entry: EntryView| is_written(entry);
    if forall|i: int| 0 <= i < entries.len() ==> (#[trigger] entries[i]).path.len() > 0 {
        lemma_filter_keeps_all(entries, keep);
    }
}

/// A filter that every element passes changes nothing.
proof fn lemma_filter_keeps_all<A>(s: Seq<A>, keep: spec_fn(A) -> bool)
    requires
        forall|i: int| 0 <= i < s.len() ==> keep(#[trigger] s[i]),
    ensures
        s.filter(keep) == s,
    decreases s.len(),
{
    reveal(Seq::filter);
    if s.len() > 0 {
        lemma_filter_keeps_all(s.drop_last(), keep);
        assert(s.drop_last().push(s.last()) =~= s);
    }
}

/// Whether the archive's entry `i` is the one that `written` was made of:
/// same kind, same bytes, and its path made relative.
pub open spec fn is_source_of(entries: Seq<EntryView>, i: int, written: EntryView) -> bool {
    0 <= i < entries.len() && relocated(entries[i], wrapper_of(entries)) == written
}

/// Every entry that is written is made of an entry of the archive, with
/// its kind and its bytes unchanged; and every entry of the archive that
/// has something left of its path is written.
pub proof fn lemma_written_entries_are_the_archive(entries: Seq<EntryView>)
    ensures
        forall|j: int|
            #![trigger planned_entries(entries)[j]]
            0 <= j < planned_entries(entries).len() ==> is_written(planned_entries(entries)[j])
                && exists|i: int| #[trigger] is_source_of(entries, i, planned_entries(entries)[j]),
        forall|i: int|
            0 <= i < entries.len() && is_written(
                #[trigger] relocated(entries[i], wrapper_of(entries)),
            ) ==> planned_entries(entries).contains(relocated(entries[i], wrapper_of(entries))),
{
    let wrapper = wrapper_of(entries);
    let moved = entries.map_values(|entry: EntryView| relocated(entry, wrapper));
    let keep = |entry: EntryView| is_written(entry);
    let planned = planned_entries(entries);
    assert forall|j: int|
        #![trigger planned[j]]
        0 <= j < planned.len() implies is_written(planned[j]) && exists|i: int|
        #[trigger] is_source_of(entries, i, planned[j]) by {
        moved.lemma_filter_pred(keep, j);
        assert(moved.filter(keep).contains(planned[j]));
        moved.lemma_filter_contains_rev(keep, planned[j]);
        let i = choose|i: int| 0 <= i < moved.len() && moved[i] == planned[j];
        assert(is_source_of(entries, i, planned[j]));
    }
    assert forall|i: int|
        0 <= i < entries.len() && is_written(
            #[trigger] relocated(entries[i], wrapper),
        ) implies planned.contains(relocated(entries[i], wrapper)) by {
        assert(moved[i] == relocated(entries[i], wrapper));
        moved.lemma_filter_contains(keep, i);
    }
}

} // verus!
