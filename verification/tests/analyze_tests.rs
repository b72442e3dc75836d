use file_inspect::analyze::{
    analysis_plan, apply_processing_outcome, directory_read_error_message, directory_summary,
    generic_summary, image_summary, metadata_error_message, not_found_message, text_read_error_message,
    text_summary, unknown_summary, AnalysisPlan,
};
use file_inspect::record::{FileAttributes, FileInfo};

fn attrs(is_file: bool, is_dir: bool) -> FileAttributes {
    FileAttributes {
        size: 64,
        is_file,
        is_dir,
        modified: 0,
        created: 0,
        accessed: 0,
    }
}

#[test]
fn image_path_runs_for_image_extensions() {
    let info = FileInfo::new("photo.JPEG".to_owned(), attrs(true, false));
    assert_eq!(analysis_plan(&info), AnalysisPlan::Image);
}

#[test]
fn text_path_runs_for_text_extensions() {
    let info = FileInfo::new("readme.md".to_owned(), attrs(true, false));
    assert_eq!(analysis_plan(&info), AnalysisPlan::Text);
}

#[test]
fn generic_path_runs_for_other_files() {
    let info = FileInfo::new("data.bin".to_owned(), attrs(true, false));
    assert_eq!(analysis_plan(&info), AnalysisPlan::GenericFile);
}

#[test]
fn directory_path_runs_for_directories() {
    let info = FileInfo::new("photos".to_owned(), attrs(false, true));
    assert_eq!(analysis_plan(&info), AnalysisPlan::Directory);
}

#[test]
fn unknown_path_runs_for_special_files() {
    let info = FileInfo::new("pipe".to_owned(), attrs(false, false));
    assert_eq!(analysis_plan(&info), AnalysisPlan::Unknown);
}

#[test]
fn directory_flag_does_not_stop_capability_dispatch() {
    // a directory named like an image still takes the image path,
    // as the dispatch order has it
    let info = FileInfo::new("shots.png".to_owned(), attrs(false, true));
    assert_eq!(analysis_plan(&info), AnalysisPlan::Image);
}

#[test]
fn text_summary_counts_lines_and_characters() {
    // three lines, 42 characters in all
    let content = "aaaaaaaaaa\nbbbbbbbbbb\ncccccccccccccccccccc";
    assert_eq!(content.chars().count(), 42);
    assert_eq!(content.lines().count(), 3);
    assert_eq!(
        text_summary(content),
        "Text file analyzed - Lines: 3, Characters: 42"
    );
}

#[test]
fn text_summary_of_empty_content() {
    assert_eq!(text_summary(""), "Text file analyzed - Lines: 0, Characters: 0");
}

#[test]
fn text_summary_ignores_a_trailing_newline_for_the_line_count() {
    assert_eq!(text_summary("a\n"), "Text file analyzed - Lines: 1, Characters: 2");
    assert_eq!(text_summary("a\nb"), "Text file analyzed - Lines: 2, Characters: 3");
    assert_eq!(text_summary("\n"), "Text file analyzed - Lines: 1, Characters: 1");
}

#[test]
fn image_summary_names_the_file() {
    assert_eq!(image_summary("pic.svg"), "Image file 'pic.svg' analyzed");
}

#[test]
fn generic_summary_reads_nothing_and_names_the_file() {
    assert_eq!(
        generic_summary("data.bin"),
        "File 'data.bin' information retrieved"
    );
}

#[test]
fn empty_directory_summary() {
    assert_eq!(directory_summary(0), "Directory contains 0 items");
}

#[test]
fn directory_summary_counts_children() {
    assert_eq!(directory_summary(17), "Directory contains 17 items");
}

#[test]
fn unknown_summary_text() {
    assert_eq!(unknown_summary(), "Unknown file type processed");
}

#[test]
fn missing_path_message_contains_the_path() {
    let msg = not_found_message("/no/such/place");
    assert_eq!(msg, "File does not exist: /no/such/place");
    assert!(msg.contains("/no/such/place"));
}

#[test]
fn failure_messages_wrap_the_os_detail() {
    assert_eq!(
        metadata_error_message("permission denied"),
        "Failed to get metadata for file: permission denied"
    );
    assert_eq!(
        text_read_error_message("stream did not contain valid UTF-8"),
        "Failed to read text file: stream did not contain valid UTF-8"
    );
    assert_eq!(
        directory_read_error_message("permission denied"),
        "Failed to read directory: permission denied"
    );
}

#[test]
fn successful_outcome_is_attached_to_the_record() {
    let info = FileInfo::new("data.bin".to_owned(), attrs(true, false));
    let summary = generic_summary(&info.name);
    let out = apply_processing_outcome(info, Ok(summary)).unwrap();
    assert_eq!(
        out.processing_result,
        Some("File 'data.bin' information retrieved".to_owned())
    );
    assert_eq!(out.name, "data.bin");
    assert_eq!(out.file_type, "BIN File");
}

#[test]
fn failed_outcome_discards_the_record() {
    let info = FileInfo::new("notes.txt".to_owned(), attrs(true, false));
    let r = apply_processing_outcome(info, Err(text_read_error_message("gone")));
    assert_eq!(
        r.unwrap_err(),
        "Failed to process file: Failed to read text file: gone"
    );
}
