//! Reading the entries out of an archive's bytes, delegated to the `zip`
//! crate.

use crate::archive::{entry_views, ArchiveEntry, EntryView, ExtractionError};
use std::io::Cursor;
use std::io::Read;
use vstd::prelude::*;
use zip::result::ZipError;
use zip::ZipArchive;

verus! {

/// `zip::ZipArchive`, opaque: an archive that is open for reading.
#[verifier::external_type_specification]
#[verifier::external_body]
#[verifier::reject_recursive_types(R)]
pub struct ExZipArchive<R>(ZipArchive<R>);

/// `std::io::Cursor`, opaque: the in-memory reader that an archive is
/// opened on.
#[verifier::external_type_specification]
#[verifier::external_body]
#[verifier::reject_recursive_types(T)]
pub struct ExCursor<T>(Cursor<T>);

/// `zip::result::ZipError`, opaque: handed from the wrappers to their
/// callers and never looked into.
#[verifier::external_type_specification]
#[verifier::external_body]
pub struct ExZipError(ZipError);

/// What `zip::ZipArchive::new` makes of `bytes`: `None` where it refuses
/// them, else what the archive holds, entry by entry in the order of its
/// directory. Of each entry that is its sanitized path, its kind and its
/// unpacked bytes, or `None` where the entry cannot be read.
pub uninterp spec fn zip_entries(bytes: Seq<u8>) -> Option<Seq<Option<EntryView>>>;

/// What an open archive holds, entry by entry.
pub uninterp spec fn archive_entries(archive: ZipArchive<Cursor<Vec<u8>>>) -> Seq<
    Option<EntryView>,
>;

/// Opens an archive held in memory with `zip::ZipArchive::new`.
///
/// Assumed, not proved: whether the bytes are accepted, and what the
/// archive then holds, depends on the bytes alone.
#[verifier::external_body]
fn open_archive(bytes: Vec<u8>) -> (r: Result<ZipArchive<Cursor<Vec<u8>>>, ZipError>)
    ensures
        match r {
            Ok(archive) => zip_entries(bytes@) == Some(archive_entries(archive)),
            Err(_) => zip_entries(bytes@) is None,
        },
{
    ZipArchive::new(Cursor::new(bytes))
}

/// The number of entries, from `zip::ZipArchive::len`.
#[verifier::external_body]
fn entry_count(archive: &ZipArchive<Cursor<Vec<u8>>>) -> (n: usize)
    ensures
        n == archive_entries(*archive).len(),
{
    archive.len()
}

/// Reads one entry: `zip::ZipArchive::by_index`, then the entry's
/// `mangled_name` split into its components, its `is_dir`, and its bytes
/// by `std::io::Read::read_to_end`.
///
/// Assumed, not proved: reading leaves what the archive holds unchanged;
/// an index below the number of entries gives that entry, or an error
/// where the entry cannot be read; any other index gives an error.
#[verifier::external_body]
fn read_entry(archive: &mut ZipArchive<Cursor<Vec<u8>>>, index: usize) -> (r: Result<
    ArchiveEntry,
    ZipError,
>)
    ensures
        archive_entries(*final(archive)) == archive_entries(*old(archive)),
        match r {
            Ok(entry) => index < archive_entries(*old(archive)).len() && archive_entries(
                *old(archive),
            )[index as int] == Some(entry@),
            Err(_) => index < archive_entries(*old(archive)).len() ==> archive_entries(
                *old(archive),
            )[index as int] is None,
        },
{
    let mut file = archive.by_index(index)?;
    let path = file.mangled_name()?.iter().map(|s| s.to_string_lossy().into_owned()).collect();
    let is_directory = file.is_dir();
    let mut content = Vec::new();
    file.read_to_end(&mut content)?;
    Ok(ArchiveEntry { path, is_directory, content })
}

/// Whether every entry can be read.
pub open spec fn all_readable(entries: Seq<Option<EntryView>>) -> bool {
    forall|i: int| 0 <= i < entries.len() ==> (#[trigger] entries[i]) is Some
}

/// The entries that `bytes` unpack to, or why they do not unpack.
pub open spec fn unpacked(bytes: Seq<u8>) -> Result<Seq<EntryView>, ExtractionError> {
    match zip_entries(bytes) {
        None => Err(ExtractionError::MalformedArchive),
        Some(entries) => if all_readable(entries) {
            Ok(entries.map_values(|entry: Option<EntryView>| entry.unwrap()))
        } else {
            Err(ExtractionError::UnreadableEntry)
        },
    }
}

/// Unpacks an archive held in memory into its entries, in the order of the
/// archive's directory.
pub fn read_entries(bytes: Vec<u8>) -> (r: Result<Vec<ArchiveEntry>, ExtractionError>)
    ensures
        match r {
            Ok(entries) => unpacked(bytes@) == Ok::<Seq<EntryView>, ExtractionError>(
                entry_views(entries@),
            ),
            Err(e) => unpacked(bytes@) == Err::<Seq<EntryView>, ExtractionError>(e),
        },
{
    let ghost source = bytes@;
    let mut archive = match open_archive(bytes) {
        Ok(archive) => archive,
        Err(_) => {
            return Err(ExtractionError::MalformedArchive);
        },
    };
    let ghost held = archive_entries(archive);
    let count = entry_count(&archive);
    let mut entries: Vec<ArchiveEntry> = Vec::new();
    let mut i: usize = 0;
    while i < count
        invariant
            i <= count,
            source == bytes@,
            zip_entries(source) == Some(held),
            count == held.len(),
            archive_entries(archive) == held,
            entries@.len() == i,
            forall|k: int| 0 <= k < i ==> held[k] == Some(#[trigger] entries@[k]@),
        decreases count - i,
    {
        match read_entry(&mut archive, i) {
            Ok(entry) => {
                entries.push(entry);
            },
            Err(_) => {
                assert(held[i as int] is None);
                return Err(ExtractionError::UnreadableEntry);
            },
        }
        i += 1;
    }
    assert(all_readable(held)) by {
        assert forall|k: int| 0 <= k < held.len() implies (#[trigger] held[k]) is Some by {
            assert(held[k] == Some(entries@[k]@));
        }
    }
    assert(entry_views(entries@) =~= held.map_values(|entry: Option<EntryView>| entry.unwrap()));
    Ok(entries)
}

} // verus!
