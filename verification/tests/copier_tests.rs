use flat_backup::copier::{copy_flat, CopyError, DestFile, EntryKind, SourceEntry};
use flat_backup::naming::dest_path;

fn file_entry(name: &str, contents: &[u8]) -> SourceEntry {
    SourceEntry {
        name: String::from(name),
        kind: EntryKind::File,
        contents: contents.to_vec(),
    }
}

fn subdir_entry(name: &str) -> SourceEntry {
    SourceEntry { name: String::from(name), kind: EntryKind::Subdir, contents: Vec::new() }
}

#[test]
fn scenario_two_files() {
    let entries = vec![file_entry("x.txt", b"hello"), file_entry("y.txt", b"world")];
    let files: Vec<DestFile> = copy_flat(&entries, "/dst/").unwrap();
    assert_eq!(files.len(), 2);
    assert_eq!(files[0].path, "/dst/x.txt");
    assert_eq!(files[0].contents, b"hello".to_vec());
    assert_eq!(files[1].path, "/dst/y.txt");
    assert_eq!(files[1].contents, b"world".to_vec());
}

#[test]
fn naming_with_trailing_separator() {
    assert_eq!(dest_path("/tmp/out/", "report.txt"), "/tmp/out/report.txt");
}

#[test]
fn naming_without_trailing_separator() {
    assert_eq!(dest_path("/tmp/out", "report.txt"), "/tmp/outreport.txt");
}

#[test]
fn naming_runs_together_through_copy() {
    let entries = vec![file_entry("report.txt", b"quarterly")];
    let files = copy_flat(&entries, "/tmp/out").unwrap();
    assert_eq!(files[0].path, "/tmp/outreport.txt");
    assert_eq!(files[0].contents, b"quarterly".to_vec());
}

#[test]
fn empty_source_copies_nothing() {
    let entries: Vec<SourceEntry> = Vec::new();
    let files = copy_flat(&entries, "/dst/").unwrap();
    assert_eq!(files.len(), 0);
}

#[test]
fn every_file_copied_byte_identical() {
    let entries = vec![
        file_entry("a.bin", &[0u8, 255u8, 7u8]),
        file_entry("b.bin", &[]),
        file_entry("c.bin", &[1u8, 1u8, 2u8, 3u8, 5u8, 8u8]),
    ];
    let files = copy_flat(&entries, "/backup/").unwrap();
    assert_eq!(files.len(), entries.len());
    for (entry, file) in entries.iter().zip(files.iter()) {
        assert_eq!(file.path, format!("/backup/{}", entry.name));
        assert_eq!(file.contents, entry.contents);
    }
}

#[test]
fn subdir_entry_aborts_without_rollback() {
    let entries = vec![
        file_entry("a.txt", b"first"),
        subdir_entry("nested"),
        file_entry("c.txt", b"third"),
    ];
    let err: CopyError = copy_flat(&entries, "/dst/").unwrap_err();
    assert_eq!(err.entry_name, "nested");
    assert_eq!(err.copied.len(), 1);
    assert_eq!(err.copied[0].path, "/dst/a.txt");
    assert_eq!(err.copied[0].contents, b"first".to_vec());
}

#[test]
fn subdir_as_only_entry_copies_nothing() {
    let entries = vec![subdir_entry("sub")];
    let err = copy_flat(&entries, "/dst/").unwrap_err();
    assert_eq!(err.entry_name, "sub");
    assert_eq!(err.copied.len(), 0);
}
