use crate::classify::{spec_is_image, spec_is_text};
use crate::record::FileInfo;
use crate::strutil::{dec_digits, u64_to_string};
use vstd::prelude::*;

verus! {

/// Which analysis path runs for a record: exactly one, image capability
/// first, then text, then the generic path split by the two kind flags.
/// Only the text and directory paths ask the caller to read anything;
/// the others work from the record alone.
#[derive(Clone, Copy, PartialEq, Eq, Structural, Debug)]
pub enum AnalysisPlan {
    Image,
    Text,
    GenericFile,
    Directory,
    Unknown,
}

/// The plan the analyzer picks for a record.
pub open spec fn spec_plan(info: FileInfo) -> AnalysisPlan {
    if spec_is_image(info.ext.deep_view()) {
        AnalysisPlan::Image
    } else if spec_is_text(info.ext.deep_view()) {
        AnalysisPlan::Text
    } else if info.is_file {
        AnalysisPlan::GenericFile
    } else if info.is_dir {
        AnalysisPlan::Directory
    } else {
        AnalysisPlan::Unknown
    }
}

/// Dispatches a record to its analysis path.
pub fn analysis_plan(info: &FileInfo) -> (p: AnalysisPlan)
    ensures
        p == spec_plan(*info),
{
    if info.is_image() {
        AnalysisPlan::Image
    } else if info.is_text() {
        AnalysisPlan::Text
    } else if info.is_file {
        AnalysisPlan::GenericFile
    } else if info.is_dir {
        AnalysisPlan::Directory
    } else {
        AnalysisPlan::Unknown
    }
}

/// Dispatch order is fixed: a record with image capability takes the
/// image path, whatever else holds of it — even one whose extension sat
/// in both capability sets would.
pub proof fn lemma_image_dispatch_first(info: FileInfo)
    requires
        spec_is_image(info.ext.deep_view()),
    ensures
        spec_plan(info) == AnalysisPlan::Image,
{
}

/// The number of `'\n'` characters in `s`.
pub open spec fn newline_count(s: Seq<char>) -> nat
    decreases s.len(),
{
    if s.len() == 0 {
        0
    } else {
        newline_count(s.drop_last()) + (if s.last() == '\n' {
            1nat
        } else {
            0nat
        })
    }
}

/// The number of lines as line iteration counts them: one per newline,
/// plus a final unterminated line; empty text has none.
pub open spec fn line_count(s: Seq<char>) -> nat {
    if s.len() == 0 {
        0
    } else if s.last() == '\n' {
        newline_count(s)
    } else {
        newline_count(s) + 1
    }
}

proof fn lemma_newline_count_le(s: Seq<char>)
    ensures
        newline_count(s) <= s.len(),
    decreases s.len(),
{
    if s.len() > 0 {
        lemma_newline_count_le(s.drop_last());
    }
}

/// Counts the lines of `s`.
fn count_lines(s: &str) -> (c: usize)
    ensures
        c as nat == line_count(s@),
{
    let n = s.unicode_len();
    let mut i: usize = 0;
    let mut nl: usize = 0;
    while i < n
        invariant
            i <= n,
            n as nat == s@.len(),
            nl as nat == newline_count(s@.subrange(0, i as int)),
            nl <= i,
        decreases n - i,
    {
        proof {
            let pi = s@.subrange(0, i as int + 1);
            assert(pi.last() == s@[i as int]);
            assert(pi.drop_last() =~= s@.subrange(0, i as int));
        }
        if s.get_char(i) == '\n' {
            nl = nl + 1;
        }
        i = i + 1;
    }
    proof {
        assert(s@.subrange(0, n as int) =~= s@);
    }
    if n == 0 {
        0
    } else {
        let last = s.get_char(n - 1);
        if last == '\n' {
            nl
        } else {
            proof {
                lemma_newline_count_le(s@.drop_last());
            }
            nl + 1
        }
    }
}

/// The summary of the text path for content handed in: its line and
/// character counts.
pub open spec fn spec_text_summary(content: Seq<char>) -> Seq<char> {
    "Text file analyzed - Lines: "@ + dec_digits(line_count(content)) + ", Characters: "@
        + dec_digits(content.len())
}

/// Builds the text-analysis summary from the file content.
pub fn text_summary(content: &str) -> (r: String)
    ensures
        r@ == spec_text_summary(content@),
{
    let lines = count_lines(content);
    let chars = content.unicode_len();
    let mut s = "Text file analyzed - Lines: ".to_owned();
    s.append(u64_to_string(lines as u64).as_str());
    s.append(", Characters: ");
    s.append(u64_to_string(chars as u64).as_str());
    proof {
        assert(s@ =~= spec_text_summary(content@));
    }
    s
}

/// The summary of the image path: descriptive only, nothing is read.
pub open spec fn spec_image_summary(name: Seq<char>) -> Seq<char> {
    "Image file '"@ + name + "' analyzed"@
}

/// Builds the image-analysis summary from the record's name.
pub fn image_summary(name: &str) -> (r: String)
    ensures
        r@ == spec_image_summary(name@),
{
    let mut s = "Image file '".to_owned();
    s.append(name);
    s.append("' analyzed");
    proof {
        assert(s@ =~= spec_image_summary(name@));
    }
    s
}

/// The summary of the generic path for a regular file: nothing is read.
pub open spec fn spec_generic_summary(name: Seq<char>) -> Seq<char> {
    "File '"@ + name + "' information retrieved"@
}

/// Builds the generic-file summary from the record's name.
pub fn generic_summary(name: &str) -> (r: String)
    ensures
        r@ == spec_generic_summary(name@),
{
    let mut s = "File '".to_owned();
    s.append(name);
    s.append("' information retrieved");
    proof {
        assert(s@ =~= spec_generic_summary(name@));
    }
    s
}

/// The summary of the generic path for a directory with `count` immediate
/// children.
pub open spec fn spec_directory_summary(count: u64) -> Seq<char> {
    "Directory contains "@ + dec_digits(count as nat) + " items"@
}

/// Builds the directory summary from the caller's child count.
pub fn directory_summary(count: u64) -> (r: String)
    ensures
        r@ == spec_directory_summary(count),
{
    let mut s = "Directory contains ".to_owned();
    s.append(u64_to_string(count).as_str());
    s.append(" items");
    proof {
        assert(s@ =~= spec_directory_summary(count));
    }
    s
}

/// The summary for a path that is neither file nor directory.
pub fn unknown_summary() -> (r: String)
    ensures
        r@ == "Unknown file type processed"@,
{
    "Unknown file type processed".to_owned()
}

/// The failure string for a path that does not exist.
pub fn not_found_message(path: &str) -> (r: String)
    ensures
        r@ == "File does not exist: "@ + path@,
{
    let mut s = "File does not exist: ".to_owned();
    s.append(path);
    proof {
        assert(s@ =~= "File does not exist: "@ + path@);
    }
    s
}

/// The failure string for a metadata fetch the OS refused, wrapping the
/// OS's own message.
pub fn metadata_error_message(detail: &str) -> (r: String)
    ensures
        r@ == "Failed to get metadata for file: "@ + detail@,
{
    let mut s = "Failed to get metadata for file: ".to_owned();
    s.append(detail);
    proof {
        assert(s@ =~= "Failed to get metadata for file: "@ + detail@);
    }
    s
}

/// The failure string for a text read that failed, wrapping the OS's own
/// message.
pub fn text_read_error_message(detail: &str) -> (r: String)
    ensures
        r@ == "Failed to read text file: "@ + detail@,
{
    let mut s = "Failed to read text file: ".to_owned();
    s.append(detail);
    proof {
        assert(s@ =~= "Failed to read text file: "@ + detail@);
    }
    s
}

/// The failure string for a directory listing that failed, wrapping the
/// OS's own message.
pub fn directory_read_error_message(detail: &str) -> (r: String)
    ensures
        r@ == "Failed to read directory: "@ + detail@,
{
    let mut s = "Failed to read directory: ".to_owned();
    s.append(detail);
    proof {
        assert(s@ =~= "Failed to read directory: "@ + detail@);
    }
    s
}

/// Attaches a successful analysis to the record, or wraps the failure in
/// the single failure string handed to the caller; the partly built
/// record is discarded then, never returned.
pub fn apply_processing_outcome(info: FileInfo, outcome: Result<String, String>) -> (r: Result<
    FileInfo,
    String,
>)
    ensures
        (match outcome {
            Ok(msg) => r matches Ok(out) && out.processing_result == Some(msg) && out.path
                == info.path && out.name == info.name && out.size == info.size && out.ext
                == info.ext && out.is_file == info.is_file && out.is_dir == info.is_dir
                && out.file_type == info.file_type && out.formatted_size == info.formatted_size
                && out.modified == info.modified && out.created == info.created && out.accessed
                == info.accessed,
            Err(e) => r matches Err(m) && m@ == "Failed to process file: "@ + e@,
        }),
{
    match outcome {
        Ok(msg) => {
            let mut out = info;
            out.set_processing_result(msg);
            Ok(out)
        },
        Err(e) => {
            let mut s = "Failed to process file: ".to_owned();
            s.append(e.as_str());
            proof {
                assert(s@ =~= "Failed to process file: "@ + e@);
            }
            Err(s)
        },
    }
}

} // verus!
