use file_inspect::record::{FileAttributes, FileInfo};

fn attrs(size: u64, is_file: bool, is_dir: bool) -> FileAttributes {
    FileAttributes {
        size,
        is_file,
        is_dir,
        modified: 11,
        created: 22,
        accessed: 33,
    }
}

#[test]
fn new_derives_name_extension_label_and_size() {
    let info = FileInfo::new("/tmp/docs/report.PDF".to_owned(), attrs(2048, true, false));
    assert_eq!(info.path, "/tmp/docs/report.PDF");
    assert_eq!(info.name, "report.PDF");
    assert_eq!(info.ext, Some("PDF".to_owned()));
    assert_eq!(info.file_type, "PDF Document");
    assert_eq!(info.formatted_size, "2.00 KB");
    assert_eq!(info.size, 2048);
    assert!(info.is_file);
    assert!(!info.is_dir);
    assert_eq!(info.modified, 11);
    assert_eq!(info.created, 22);
    assert_eq!(info.accessed, 33);
    assert_eq!(info.processing_result, None);
}

#[test]
fn hidden_file_has_no_extension() {
    let info = FileInfo::new(".gitignore".to_owned(), attrs(1, true, false));
    assert_eq!(info.name, ".gitignore");
    assert_eq!(info.ext, None);
    assert_eq!(info.file_type, "Unknown");
}

#[test]
fn trailing_dot_gives_empty_extension() {
    let info = FileInfo::new("archive.".to_owned(), attrs(1, true, false));
    assert_eq!(info.name, "archive.");
    assert_eq!(info.ext, Some("".to_owned()));
    assert_eq!(info.file_type, " File");
}

#[test]
fn last_dot_wins() {
    let info = FileInfo::new("bundle.tar.gz".to_owned(), attrs(1, true, false));
    assert_eq!(info.ext, Some("gz".to_owned()));
    assert_eq!(info.file_type, "Archive");
}

#[test]
fn trailing_separators_are_ignored_for_the_name() {
    let info = FileInfo::new("/usr/bin/".to_owned(), attrs(0, false, true));
    assert_eq!(info.name, "bin");
    assert_eq!(info.file_type, "Directory");
}

#[test]
fn root_path_has_no_name() {
    let info = FileInfo::new("/".to_owned(), attrs(0, false, true));
    assert_eq!(info.name, "Unknown");
    assert_eq!(info.ext, None);
}

#[test]
fn parent_component_has_no_name() {
    let info = FileInfo::new("work/..".to_owned(), attrs(0, false, true));
    assert_eq!(info.name, "Unknown");
    assert_eq!(info.ext, None);
}

#[test]
fn directory_extension_does_not_change_its_label() {
    let info = FileInfo::new("/srv/photos.jpg".to_owned(), attrs(0, false, true));
    assert_eq!(info.ext, Some("jpg".to_owned()));
    assert_eq!(info.file_type, "Directory");
}

#[test]
fn set_processing_result_touches_only_the_summary() {
    let mut info = FileInfo::new("a/b.txt".to_owned(), attrs(5, true, false));
    info.set_processing_result("done".to_owned());
    assert_eq!(info.processing_result, Some("done".to_owned()));
    assert_eq!(info.name, "b.txt");
    assert_eq!(info.file_type, "Text");
    assert_eq!(info.size, 5);
}

#[test]
fn repeated_inspection_builds_independent_records() {
    let first = FileInfo::new("notes.md".to_owned(), attrs(100, true, false));
    let second = FileInfo::new("notes.md".to_owned(), attrs(250, true, false));
    assert_eq!(first.size, 100);
    assert_eq!(second.size, 250);
    assert_eq!(first.formatted_size, "100 B");
    assert_eq!(second.formatted_size, "250 B");
    assert_eq!(first.processing_result, None);
    assert_eq!(second.processing_result, None);
}
