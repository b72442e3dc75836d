use crate::casefold::{lower_of, lowercase, upper_of, uppercase};
use crate::strutil::str_eq;
use vstd::prelude::*;

verus! {

/// Lowercase extensions that the label table maps to `"Image"`.
pub open spec fn image_label_ext(s: Seq<char>) -> bool {
    s == "jpg"@ || s == "jpeg"@ || s == "png"@ || s == "gif"@ || s == "bmp"@ || s == "webp"@
}

/// Lowercase extensions that the label table maps to `"Video"`.
pub open spec fn video_label_ext(s: Seq<char>) -> bool {
    s == "mp4"@ || s == "avi"@ || s == "mov"@ || s == "wmv"@ || s == "flv"@ || s == "mkv"@
}

/// Lowercase extensions that the label table maps to `"Audio"`.
pub open spec fn audio_label_ext(s: Seq<char>) -> bool {
    s == "mp3"@ || s == "wav"@ || s == "flac"@ || s == "aac"@ || s == "ogg"@
}

/// Lowercase extensions that the label table maps to `"Text"`.
pub open spec fn text_label_ext(s: Seq<char>) -> bool {
    s == "txt"@ || s == "md"@ || s == "log"@
}

/// Lowercase extensions that the label table maps to `"Archive"`.
pub open spec fn archive_label_ext(s: Seq<char>) -> bool {
    s == "zip"@ || s == "rar"@ || s == "7z"@ || s == "tar"@ || s == "gz"@
}

/// The fixed label table: the display label for a lowercase extension, or
/// nothing when the table has no entry for it.
pub open spec fn spec_known_label(s: Seq<char>) -> Option<Seq<char>> {
    if image_label_ext(s) {
        Some("Image"@)
    } else if video_label_ext(s) {
        Some("Video"@)
    } else if audio_label_ext(s) {
        Some("Audio"@)
    } else if text_label_ext(s) {
        Some("Text"@)
    } else if s == "pdf"@ {
        Some("PDF Document"@)
    } else if s == "doc"@ || s == "docx"@ {
        Some("Word Document"@)
    } else if s == "xls"@ || s == "xlsx"@ {
        Some("Excel Document"@)
    } else if archive_label_ext(s) {
        Some("Archive"@)
    } else {
        None
    }
}

/// The display label of a non-directory with extension `ext`: the table
/// entry for the lowercased extension, or `"{UPPERCASE_EXT} File"`.
pub open spec fn spec_label(ext: Seq<char>) -> Seq<char> {
    match spec_known_label(lower_of(ext)) {
        Some(l) => l,
        None => upper_of(ext) + " File"@,
    }
}

/// The display type label: directories are always `"Directory"`, a missing
/// extension gives `"Unknown"`, anything else goes through the label table.
pub open spec fn spec_file_type(is_dir: bool, ext: Option<Seq<char>>) -> Seq<char> {
    if is_dir {
        "Directory"@
    } else {
        match ext {
            Some(e) => spec_label(e),
            None => "Unknown"@,
        }
    }
}

/// The extensions with image capability, deciding which analysis runs.
/// `svg` is in this set although the label table has no entry for it.
pub open spec fn in_image_set(s: Seq<char>) -> bool {
    image_label_ext(s) || s == "svg"@
}

/// The extensions with text capability, deciding which analysis runs: a
/// broader set than the `"Text"` label row.
pub open spec fn in_text_set(s: Seq<char>) -> bool {
    s == "txt"@ || s == "md"@ || s == "json"@ || s == "xml"@ || s == "html"@ || s == "css"@
        || s == "js"@ || s == "ts"@ || s == "rs"@ || s == "py"@ || s == "java"@ || s == "c"@
        || s == "cpp"@ || s == "h"@ || s == "go"@
}

/// Image capability of an optional raw extension: its lowercase form is in
/// the image set.
pub open spec fn spec_is_image(ext: Option<Seq<char>>) -> bool {
    match ext {
        Some(e) => in_image_set(lower_of(e)),
        None => false,
    }
}

/// Text capability of an optional raw extension: its lowercase form is in
/// the text set.
pub open spec fn spec_is_text(ext: Option<Seq<char>>) -> bool {
    match ext {
        Some(e) => in_text_set(lower_of(e)),
        None => false,
    }
}

/// Looks a lowercase extension up in the fixed label table.
pub fn known_label(low: &str) -> (r: Option<String>)
    ensures
        r.deep_view() == spec_known_label(low@),
{
    if str_eq(low, "jpg") || str_eq(low, "jpeg") || str_eq(low, "png") || str_eq(low, "gif")
        || str_eq(low, "bmp") || str_eq(low, "webp") {
        Some("Image".to_owned())
    } else if str_eq(low, "mp4") || str_eq(low, "avi") || str_eq(low, "mov") || str_eq(low, "wmv")
        || str_eq(low, "flv") || str_eq(low, "mkv") {
        Some("Video".to_owned())
    } else if str_eq(low, "mp3") || str_eq(low, "wav") || str_eq(low, "flac") || str_eq(low, "aac")
        || str_eq(low, "ogg") {
        Some("Audio".to_owned())
    } else if str_eq(low, "txt") || str_eq(low, "md") || str_eq(low, "log") {
        Some("Text".to_owned())
    } else if str_eq(low, "pdf") {
        Some("PDF Document".to_owned())
    } else if str_eq(low, "doc") || str_eq(low, "docx") {
        Some("Word Document".to_owned())
    } else if str_eq(low, "xls") || str_eq(low, "xlsx") {
        Some("Excel Document".to_owned())
    } else if str_eq(low, "zip") || str_eq(low, "rar") || str_eq(low, "7z") || str_eq(low, "tar")
        || str_eq(low, "gz") {
        Some("Archive".to_owned())
    } else {
        None
    }
}

/// Decides image capability for a lowercase extension.
pub fn in_image_set_exec(low: &str) -> (r: bool)
    ensures
        r == in_image_set(low@),
{
    str_eq(low, "jpg") || str_eq(low, "jpeg") || str_eq(low, "png") || str_eq(low, "gif")
        || str_eq(low, "bmp") || str_eq(low, "webp") || str_eq(low, "svg")
}

/// Decides text capability for a lowercase extension.
pub fn in_text_set_exec(low: &str) -> (r: bool)
    ensures
        r == in_text_set(low@),
{
    str_eq(low, "txt") || str_eq(low, "md") || str_eq(low, "json") || str_eq(low, "xml")
        || str_eq(low, "html") || str_eq(low, "css") || str_eq(low, "js") || str_eq(low, "ts")
        || str_eq(low, "rs") || str_eq(low, "py") || str_eq(low, "java") || str_eq(low, "c")
        || str_eq(low, "cpp") || str_eq(low, "h") || str_eq(low, "go")
}

/// The display label of a non-directory with raw extension `ext`.
pub fn label_for_ext(ext: &str) -> (r: String)
    ensures
        r@ == spec_label(ext@),
{
    let low = lowercase(ext);
    match known_label(low.as_str()) {
        Some(l) => l,
        None => uppercase(ext).concat(" File"),
    }
}

/// The capability set and the label table disagree on `svg` on purpose:
/// `svg` has image capability, while the label table has no entry for it,
/// so an `.svg` file is labelled from its uppercased extension instead.
pub proof fn lemma_svg_label_asymmetry()
    ensures
        in_image_set("svg"@),
        spec_known_label("svg"@) is None,
{
    reveal_strlit("svg");
    reveal_strlit("jpg");
    reveal_strlit("jpeg");
    reveal_strlit("png");
    reveal_strlit("gif");
    reveal_strlit("bmp");
    reveal_strlit("webp");
    reveal_strlit("mp4");
    reveal_strlit("avi");
    reveal_strlit("mov");
    reveal_strlit("wmv");
    reveal_strlit("flv");
    reveal_strlit("mkv");
    reveal_strlit("mp3");
    reveal_strlit("wav");
    reveal_strlit("flac");
    reveal_strlit("aac");
    reveal_strlit("ogg");
    reveal_strlit("txt");
    reveal_strlit("md");
    reveal_strlit("log");
    reveal_strlit("pdf");
    reveal_strlit("doc");
    reveal_strlit("docx");
    reveal_strlit("xls");
    reveal_strlit("xlsx");
    reveal_strlit("zip");
    reveal_strlit("rar");
    reveal_strlit("7z");
    reveal_strlit("tar");
    reveal_strlit("gz");
    assert("svg"@ != "jpg"@) by {
        assert("svg"@[0] == 's' && "jpg"@[0] == 'j');
    }
    assert("svg"@ != "jpeg"@) by {
        assert("svg"@.len() == 3 && "jpeg"@.len() == 4);
    }
    assert("svg"@ != "png"@) by {
        assert("svg"@[0] == 's' && "png"@[0] == 'p');
    }
    assert("svg"@ != "gif"@) by {
        assert("svg"@[0] == 's' && "gif"@[0] == 'g');
    }
    assert("svg"@ != "bmp"@) by {
        assert("svg"@[0] == 's' && "bmp"@[0] == 'b');
    }
    assert("svg"@ != "webp"@) by {
        assert("svg"@.len() == 3 && "webp"@.len() == 4);
    }
    assert("svg"@ != "mp4"@) by {
        assert("svg"@[0] == 's' && "mp4"@[0] == 'm');
    }
    assert("svg"@ != "avi"@) by {
        assert("svg"@[0] == 's' && "avi"@[0] == 'a');
    }
    assert("svg"@ != "mov"@) by {
        assert("svg"@[0] == 's' && "mov"@[0] == 'm');
    }
    assert("svg"@ != "wmv"@) by {
        assert("svg"@[0] == 's' && "wmv"@[0] == 'w');
    }
    assert("svg"@ != "flv"@) by {
        assert("svg"@[0] == 's' && "flv"@[0] == 'f');
    }
    assert("svg"@ != "mkv"@) by {
        assert("svg"@[0] == 's' && "mkv"@[0] == 'm');
    }
    assert("svg"@ != "mp3"@) by {
        assert("svg"@[0] == 's' && "mp3"@[0] == 'm');
    }
    assert("svg"@ != "wav"@) by {
        assert("svg"@[0] == 's' && "wav"@[0] == 'w');
    }
    assert("svg"@ != "flac"@) by {
        assert("svg"@.len() == 3 && "flac"@.len() == 4);
    }
    assert("svg"@ != "aac"@) by {
        assert("svg"@[0] == 's' && "aac"@[0] == 'a');
    }
    assert("svg"@ != "ogg"@) by {
        assert("svg"@[0] == 's' && "ogg"@[0] == 'o');
    }
    assert("svg"@ != "txt"@) by {
        assert("svg"@[0] == 's' && "txt"@[0] == 't');
    }
    assert("svg"@ != "md"@) by {
        assert("svg"@.len() == 3 && "md"@.len() == 2);
    }
    assert("svg"@ != "log"@) by {
        assert("svg"@[0] == 's' && "log"@[0] == 'l');
    }
    assert("svg"@ != "pdf"@) by {
        assert("svg"@[0] == 's' && "pdf"@[0] == 'p');
    }
    assert("svg"@ != "doc"@) by {
        assert("svg"@[0] == 's' && "doc"@[0] == 'd');
    }
    assert("svg"@ != "docx"@) by {
        assert("svg"@.len() == 3 && "docx"@.len() == 4);
    }
    assert("svg"@ != "xls"@) by {
        assert("svg"@[0] == 's' && "xls"@[0] == 'x');
    }
    assert("svg"@ != "xlsx"@) by {
        assert("svg"@.len() == 3 && "xlsx"@.len() == 4);
    }
    assert("svg"@ != "zip"@) by {
        assert("svg"@[0] == 's' && "zip"@[0] == 'z');
    }
    assert("svg"@ != "rar"@) by {
        assert("svg"@[0] == 's' && "rar"@[0] == 'r');
    }
    assert("svg"@ != "7z"@) by {
        assert("svg"@.len() == 3 && "7z"@.len() == 2);
    }
    assert("svg"@ != "tar"@) by {
        assert("svg"@[0] == 's' && "tar"@[0] == 't');
    }
    assert("svg"@ != "gz"@) by {
        assert("svg"@.len() == 3 && "gz"@.len() == 2);
    }
}

} // verus!
