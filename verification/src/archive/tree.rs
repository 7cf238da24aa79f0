//! A model of the destination directory: what stands at each path below
//! it once the entries of a plan have been written, one after the other.

use crate::archive::{plan_of, EntryView};
use vstd::prelude::*;

verus! {

/// What stands at a path.
pub enum Node {
    Directory,
    File(Seq<u8>),
}

/// Whether `dir` is one of the directories that `path` lies in: a
/// beginning of `path` that is neither empty nor all of it.
pub open spec fn is_ancestor(dir: Seq<Seq<char>>, path: Seq<Seq<char>>) -> bool {
    0 < dir.len() < path.len() && path.take(dir.len() as int) == dir
}

/// What writing `entry` puts at `path`, if it puts anything there: the
/// entry itself at its own path, and a directory at each directory that
/// the entry lies in.
pub open spec fn written_at(entry: EntryView, path: Seq<Seq<char>>) -> Option<Node> {
    if path == entry.path {
        if entry.is_directory {
            Some(Node::Directory)
        } else {
            Some(Node::File(entry.content))
        }
    } else if is_ancestor(path, entry.path) {
        Some(Node::Directory)
    } else {
        None
    }
}

/// The tree after `entry` is written into `tree`. What the entry puts at a
/// path replaces what stood there; every other path is left as it was.
pub open spec fn write_entry(tree: Map<Seq<Seq<char>>, Node>, entry: EntryView) -> Map<
    Seq<Seq<char>>,
    Node,
> {
    Map::new(
        |path: Seq<Seq<char>>| tree.dom().contains(path) || written_at(entry, path) is Some,
        |path: Seq<Seq<char>>|
            match written_at(entry, path) {
                Some(node) => node,
                None => tree[path],
            },
    )
}

/// The tree after `entries` are written into `tree`, in order.
pub open spec fn write_entries(tree: Map<Seq<Seq<char>>, Node>, entries: Seq<EntryView>) -> Map<
    Seq<Seq<char>>,
    Node,
>
    decreases entries.len(),
{
    if entries.len() == 0 {
        tree
    } else {
        write_entry(write_entries(tree, entries.drop_last()), entries.last())
    }
}

/// What the last of `entries` to put anything at `path` puts there.
pub open spec fn last_written(entries: Seq<EntryView>, path: Seq<Seq<char>>) -> Option<Node>
    decreases entries.len(),
{
    if entries.len() == 0 {
        None
    } else {
        match written_at(entries.last(), path) {
            Some(node) => Some(node),
            None => last_written(entries.drop_last(), path),
        }
    }
}

/// After a run of writes, a path holds what the last write to it put
/// there, and what it held before where no write touched it.
pub proof fn lemma_last_write_stands(tree: Map<Seq<Seq<char>>, Node>, entries: Seq<EntryView>)
    ensures
        forall|path: Seq<Seq<char>>|
            #![trigger write_entries(tree, entries).dom().contains(path)]
            write_entries(tree, entries).dom().contains(path) <==> tree.dom().contains(path)
                || last_written(entries, path) is Some,
        forall|path: Seq<Seq<char>>|
            #![trigger write_entries(tree, entries)[path]]
            write_entries(tree, entries).dom().contains(path) ==> write_entries(
                tree,
                entries,
            )[path] == match last_written(entries, path) {
                Some(node) => node,
                None => tree[path],
            },
    decreases entries.len(),
{
    if entries.len() > 0 {
        lemma_last_write_stands(tree, entries.drop_last());
    }
}

/// Writing the same entries a second time changes nothing: an item
/// installed twice from the same archive leaves its directory as the first
/// installation left it.
pub proof fn lemma_rewrite_changes_nothing(tree: Map<Seq<Seq<char>>, Node>, entries: Seq<EntryView>)
    ensures
        write_entries(write_entries(tree, entries), entries) == write_entries(tree, entries),
{
    let once = write_entries(tree, entries);
    let twice = write_entries(once, entries);
    lemma_last_write_stands(tree, entries);
    lemma_last_write_stands(once, entries);
    assert(twice =~= once);
}

/// Installing an archive twice leaves the destination as installing it
/// once does: the second run plans the same entries and writes them over
/// the first run's.
pub proof fn lemma_reinstall_is_idempotent(
    tree: Map<Seq<Seq<char>>, Node>,
    archive: Seq<EntryView>,
)
    ensures
        write_entries(write_entries(tree, plan_of(archive).entries), plan_of(archive).entries)
            == write_entries(tree, plan_of(archive).entries),
{
    lemma_rewrite_changes_nothing(tree, plan_of(archive).entries);
}

/// Whether every path that `first` writes at is written at by `second`
/// too.
pub open spec fn covers(second: Seq<EntryView>, first: Seq<EntryView>) -> bool {
    forall|path: Seq<Seq<char>>|
        (#[trigger] last_written(first, path)) is Some ==> last_written(second, path) is Some
}

/// A second installation leaves exactly its own contents where it writes
/// at every path that the first one wrote at: the destination, empty
/// before the first run, is then as if the second run alone had written
/// into an empty one. Nothing clears the destination between the runs, so
/// a path that only the first run wrote at would stay.
pub proof fn lemma_covering_reinstall_leaves_the_second(
    first: Seq<EntryView>,
    second: Seq<EntryView>,
)
    requires
        covers(second, first),
    ensures
        write_entries(write_entries(Map::empty(), first), second) == write_entries(
            Map::empty(),
            second,
        ),
{
    let nothing = Map::<Seq<Seq<char>>, Node>::empty();
    let once = write_entries(nothing, first);
    let twice = write_entries(once, second);
    let alone = write_entries(nothing, second);
    lemma_last_write_stands(nothing, first);
    lemma_last_write_stands(once, second);
    lemma_last_write_stands(nothing, second);
    assert forall|path: Seq<Seq<char>>| twice.dom().contains(path) <==> alone.dom().contains(
        path,
    ) by {
        if once.dom().contains(path) {
            assert(last_written(first, path) is Some);
        }
    }
    assert(twice =~= alone);
}

/// Into an empty destination, a plan puts its own entries and the
/// directories they lie in, and nothing else; and a file that no later
/// entry overwrites holds the bytes of its entry.
pub proof fn lemma_fresh_destination_holds_the_plan(entries: Seq<EntryView>, i: int)
    requires
        0 <= i < entries.len(),
        forall|j: int| i < j < entries.len() ==> written_at(entries[j], entries[i].path) is None,
    ensures
        forall|path: Seq<Seq<char>>|
            #![trigger write_entries(Map::empty(), entries).dom().contains(path)]
            write_entries(Map::empty(), entries).dom().contains(path) <==> last_written(
                entries,
                path,
            ) is Some,
        write_entries(Map::empty(), entries)[entries[i].path] == written_at(
            entries[i],
            entries[i].path,
        ).unwrap(),
        !entries[i].is_directory ==> write_entries(Map::empty(), entries)[entries[i].path]
            == Node::File(entries[i].content),
{
    lemma_last_write_stands(Map::empty(), entries);
    lemma_last_written_skips_untouched(entries, i);
}

/// Where no entry after entry `i` writes at its path, the last write
/// there is entry `i`'s own.
proof fn lemma_last_written_skips_untouched(entries: Seq<EntryView>, i: int)
    requires
        0 <= i < entries.len(),
        forall|j: int| i < j < entries.len() ==> written_at(entries[j], entries[i].path) is None,
    ensures
        last_written(entries, entries[i].path) == written_at(entries[i], entries[i].path),
    decreases entries.len(),
{
    if i < entries.len() - 1 {
        let rest = entries.drop_last();
        assert(written_at(entries[entries.len() - 1], entries[i].path) is None);
        assert(rest[i] == entries[i]);
        assert forall|j: int| i < j < rest.len() implies written_at(
            rest[j],
            rest[i].path,
        ) is None by {
            assert(rest[j] == entries[j]);
        }
        lemma_last_written_skips_untouched(rest, i);
    }
}

} // verus!
