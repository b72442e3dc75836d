use file_inspect::record::{FileAttributes, FileInfo};

fn attrs_file(size: u64) -> FileAttributes {
    FileAttributes {
        size,
        is_file: true,
        is_dir: false,
        modified: 0,
        created: 0,
        accessed: 0,
    }
}

#[test]
fn directory_label_wins_over_any_extension() {
    assert_eq!(
        FileInfo::calculate_file_type(true, &Some("jpg".to_owned())),
        "Directory"
    );
    assert_eq!(
        FileInfo::calculate_file_type(true, &Some("xyz".to_owned())),
        "Directory"
    );
    assert_eq!(FileInfo::calculate_file_type(true, &None), "Directory");
}

#[test]
fn image_label_is_case_insensitive() {
    assert_eq!(
        FileInfo::calculate_file_type(false, &Some("JPG".to_owned())),
        "Image"
    );
    assert_eq!(
        FileInfo::calculate_file_type(false, &Some("jpg".to_owned())),
        "Image"
    );
}

#[test]
fn unlisted_extension_gets_uppercase_file_label() {
    assert_eq!(
        FileInfo::calculate_file_type(false, &Some("xyz".to_owned())),
        "XYZ File"
    );
}

#[test]
fn missing_extension_is_unknown() {
    assert_eq!(FileInfo::calculate_file_type(false, &None), "Unknown");
}

#[test]
fn each_label_row_has_a_member() {
    let rows = [
        ("webp", "Image"),
        ("mkv", "Video"),
        ("ogg", "Audio"),
        ("log", "Text"),
        ("pdf", "PDF Document"),
        ("docx", "Word Document"),
        ("xls", "Excel Document"),
        ("7z", "Archive"),
    ];
    for (ext, label) in rows {
        assert_eq!(
            FileInfo::calculate_file_type(false, &Some(ext.to_owned())),
            label
        );
    }
}

#[test]
fn svg_is_image_capable_but_not_image_labelled() {
    let info = FileInfo::new("pic.svg".to_owned(), attrs_file(10));
    assert!(info.is_image());
    assert_eq!(info.file_type, "SVG File");
}

#[test]
fn text_capability_is_broader_than_text_label() {
    let info = FileInfo::new("main.rs".to_owned(), attrs_file(10));
    assert!(info.is_text());
    assert_eq!(info.file_type, "RS File");
}

#[test]
fn text_capability_is_case_insensitive() {
    let info = FileInfo::new("NOTES.TXT".to_owned(), attrs_file(10));
    assert!(info.is_text());
    assert!(!info.is_image());
}

#[test]
fn binary_extension_has_no_capability() {
    let info = FileInfo::new("data.bin".to_owned(), attrs_file(10));
    assert!(!info.is_image());
    assert!(!info.is_text());
    assert_eq!(info.file_type, "BIN File");
}
