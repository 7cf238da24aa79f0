use sgmm::archive::reader::read_entries;
use sgmm::archive::{detect_wrapper, plan_archive, plan_extraction, ArchiveEntry, ExtractionError};
use std::io::{Cursor, Write};
use zip::write::SimpleFileOptions;
use zip::{CompressionMethod, ZipWriter};

fn segments(path: &str) -> Vec<String> {
    path.split('/').filter(|s| !s.is_empty()).map(|s| s.to_string()).collect()
}

fn dir(path: &str) -> ArchiveEntry {
    ArchiveEntry { path: segments(path), is_directory: true, content: Vec::new() }
}

fn file(path: &str, content: &[u8]) -> ArchiveEntry {
    ArchiveEntry { path: segments(path), is_directory: false, content: content.to_vec() }
}

fn zipped(entries: &[(&str, Option<&[u8]>)], method: CompressionMethod) -> Vec<u8> {
    let mut writer = ZipWriter::new(Cursor::new(Vec::new()));
    let options = SimpleFileOptions::default().compression_method(method);
    for (name, content) in entries {
        match content {
            None => writer.add_directory(*name, options).unwrap(),
            Some(bytes) => {
                writer.start_file(*name, options).unwrap();
                writer.write_all(bytes).unwrap();
            }
        }
    }
    writer.finish().unwrap().into_inner()
}

#[test]
fn wrapper_directory_is_stripped() {
    let entries = vec![
        dir("wrapperDir/"),
        file("wrapperDir/a.txt", b"hello"),
        file("wrapperDir/sub/b.txt", b"world"),
    ];
    let plan = plan_extraction(entries);
    assert_eq!(plan.strip_prefix, Some("wrapperDir".to_string()));
    assert_eq!(plan.entries, vec![file("a.txt", b"hello"), file("sub/b.txt", b"world")]);
    assert!(plan.entries.iter().all(|e| e.path[0] != "wrapperDir"));
}

#[test]
fn unrelated_roots_are_kept() {
    let entries = vec![file("foo/x.txt", b"x"), file("bar/y.txt", b"y")];
    let plan = plan_extraction(entries.clone());
    assert_eq!(plan.strip_prefix, None);
    assert_eq!(plan.entries, entries);
}

#[test]
fn single_entry_is_never_stripped() {
    let entries = vec![file("only/readme.txt", b"r")];
    assert_eq!(detect_wrapper(&entries), None);
    let plan = plan_extraction(entries.clone());
    assert_eq!(plan.strip_prefix, None);
    assert_eq!(plan.entries, entries);
}

#[test]
fn empty_archive_plans_nothing() {
    let plan = plan_extraction(Vec::new());
    assert_eq!(plan.strip_prefix, None);
    assert!(plan.entries.is_empty());
}

#[test]
fn one_stray_entry_disables_stripping() {
    let entries = vec![
        dir("mod/"),
        file("mod/descriptor.mod", b"d"),
        file("mod/gfx/flag.dds", b"f"),
        file("thumbnail.png", b"t"),
    ];
    assert_eq!(detect_wrapper(&entries), None);
    let plan = plan_extraction(entries.clone());
    assert_eq!(plan.entries, entries);
}

#[test]
fn candidate_is_the_first_entrys_first_segment() {
    let entries = vec![file("a/b/one", b"1"), file("a/b/two", b"2"), dir("a/c")];
    assert_eq!(detect_wrapper(&entries), Some("a".to_string()));
    let plan = plan_extraction(entries);
    assert_eq!(plan.entries, vec![file("b/one", b"1"), file("b/two", b"2"), dir("c")]);
}

#[test]
fn same_name_deeper_down_is_no_wrapper() {
    let entries = vec![file("a/x", b"1"), file("b/a/y", b"2")];
    assert_eq!(detect_wrapper(&entries), None);
}

#[test]
fn entries_without_a_path_are_left_out() {
    let entries = vec![dir(""), file("a.txt", b"a")];
    let plan = plan_extraction(entries);
    assert_eq!(plan.strip_prefix, None);
    assert_eq!(plan.entries, vec![file("a.txt", b"a")]);
}

#[test]
fn order_kind_and_bytes_are_kept() {
    let binary: Vec<u8> = (0..=255u8).chain([13, 10, 13, 10, 0, 255]).collect();
    let entries = vec![
        file("w/z.bin", &binary),
        dir("w/empty"),
        file("w/a.txt", b"line\r\nline\n"),
    ];
    let plan = plan_extraction(entries);
    assert_eq!(
        plan.entries,
        vec![file("z.bin", &binary), dir("empty"), file("a.txt", b"line\r\nline\n")]
    );
}

#[test]
fn planning_twice_gives_the_same_plan() {
    let entries = vec![dir("w/"), file("w/a", b"1"), file("w/b", b"2")];
    assert_eq!(plan_extraction(entries.clone()), plan_extraction(entries));
}

#[test]
fn zipped_wrapper_is_stripped() {
    let bytes = zipped(
        &[
            ("wrapperDir/", None),
            ("wrapperDir/a.txt", Some(b"hello")),
            ("wrapperDir/sub/b.txt", Some(b"world")),
        ],
        CompressionMethod::Deflated,
    );
    let plan = plan_archive(bytes).unwrap();
    assert_eq!(plan.strip_prefix, Some("wrapperDir".to_string()));
    assert_eq!(plan.entries, vec![file("a.txt", b"hello"), file("sub/b.txt", b"world")]);
}

#[test]
fn zipped_unrelated_roots_are_kept() {
    let bytes = zipped(
        &[("foo/x.txt", Some(b"x")), ("bar/y.txt", Some(b"y"))],
        CompressionMethod::Stored,
    );
    let plan = plan_archive(bytes).unwrap();
    assert_eq!(plan.strip_prefix, None);
    assert_eq!(plan.entries, vec![file("foo/x.txt", b"x"), file("bar/y.txt", b"y")]);
}

#[test]
fn zip_entries_come_out_in_directory_order() {
    let binary: Vec<u8> = (0..=255u8).rev().collect();
    let bytes = zipped(
        &[("b/", None), ("b/data.bin", Some(&binary)), ("a.txt", Some(b""))],
        CompressionMethod::Deflated,
    );
    let entries = read_entries(bytes).unwrap();
    assert_eq!(entries, vec![dir("b"), file("b/data.bin", &binary), file("a.txt", b"")]);
}

#[test]
fn bytes_that_are_no_archive_are_refused() {
    assert_eq!(plan_archive(b"this is no archive".to_vec()), Err(ExtractionError::MalformedArchive));
    assert_eq!(read_entries(Vec::new()), Err(ExtractionError::MalformedArchive));
}

#[test]
fn damaged_entry_is_refused() {
    let mut bytes = zipped(&[("a.txt", Some(b"payload-payload"))], CompressionMethod::Stored);
    let at = bytes.windows(7).position(|w| w == b"payload").unwrap();
    bytes[at] ^= 0xff;
    assert_eq!(plan_archive(bytes), Err(ExtractionError::UnreadableEntry));
}
