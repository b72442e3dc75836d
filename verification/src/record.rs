use crate::casefold::lowercase;
use crate::classify::{
    in_image_set_exec, in_text_set_exec, label_for_ext, spec_file_type, spec_is_image,
    spec_is_text,
};
use crate::pathname::{extension_of, file_name_of, spec_extension, spec_file_name};
use crate::sizefmt::{format_size, spec_format_size};
use vstd::prelude::*;

verus! {

/// The OS-level attributes of a path, as plain values: byte size, the two
/// kind flags, and three timestamps in milliseconds since the epoch, each
/// zero where the OS reports none.
#[derive(Clone, Copy, PartialEq, Eq, Structural, Debug)]
pub struct FileAttributes {
    pub size: u64,
    pub is_file: bool,
    pub is_dir: bool,
    pub modified: u64,
    pub created: u64,
    pub accessed: u64,
}

/// The extension slot of a record built from `path`: the extension of the
/// derived file name, when there is one.
pub open spec fn spec_path_extension(path: Seq<char>) -> Option<Seq<char>> {
    match spec_file_name(path) {
        Some(n) => spec_extension(n),
        None => None,
    }
}

/// The per-request record handed back to the caller: the path and its
/// attributes, with the derived name, extension, type label, formatted
/// size, and the analysis summary once one is attached.
#[derive(Debug)]
pub struct FileInfo {
    pub path: String,
    pub name: String,
    pub size: u64,
    pub ext: Option<String>,
    pub is_file: bool,
    pub is_dir: bool,
    pub file_type: String,
    pub formatted_size: String,
    pub processing_result: Option<String>,
    pub modified: u64,
    pub created: u64,
    pub accessed: u64,
}

impl FileInfo {
    /// A record is well formed when its derived fields agree with its
    /// path, flags and size.
    pub open spec fn wf(self) -> bool {
        &&& (match spec_file_name(self.path@) {
            Some(n) => self.name@ == n,
            None => self.name@ == "Unknown"@,
        })
        &&& self.ext.deep_view() == spec_path_extension(self.path@)
        &&& self.file_type@ == spec_file_type(self.is_dir, self.ext.deep_view())
        &&& self.formatted_size@ == spec_format_size(self.size)
    }

    /// Builds the record for `path` from attributes already in hand:
    /// derives name, extension, type label and formatted size.  The
    /// summary starts empty; analysis attaches it later.
    pub fn new(path: String, attrs: FileAttributes) -> (info: FileInfo)
        ensures
            info.path == path,
            info.size == attrs.size,
            info.is_file == attrs.is_file,
            info.is_dir == attrs.is_dir,
            info.modified == attrs.modified,
            info.created == attrs.created,
            info.accessed == attrs.accessed,
            info.processing_result is None,
            info.wf(),
    {
        let (name, ext): (String, Option<String>) = match file_name_of(path.as_str()) {
            Some(nm) => {
                let e = extension_of(nm.as_str());
                (nm, e)
            },
            None => ("Unknown".to_owned(), None),
        };
        let file_type = Self::calculate_file_type(attrs.is_dir, &ext);
        let formatted_size = Self::calculate_formatted_size(attrs.size);
        FileInfo {
            path,
            name,
            size: attrs.size,
            ext,
            is_file: attrs.is_file,
            is_dir: attrs.is_dir,
            file_type,
            formatted_size,
            processing_result: None,
            modified: attrs.modified,
            created: attrs.created,
            accessed: attrs.accessed,
        }
    }

    /// Attaches an analysis summary; every other field keeps its value.
    pub fn set_processing_result(&mut self, result: String)
        ensures
            final (self).processing_result == Some(result),
            final (self).path == old(self).path,
            final (self).name == old(self).name,
            final (self).size == old(self).size,
            final (self).ext == old(self).ext,
            final (self).is_file == old(self).is_file,
            final (self).is_dir == old(self).is_dir,
            final (self).file_type == old(self).file_type,
            final (self).formatted_size == old(self).formatted_size,
            final (self).modified == old(self).modified,
            final (self).created == old(self).created,
            final (self).accessed == old(self).accessed,
    {
        self.processing_result = Some(result);
    }

    /// Converts a raw byte count into the display size string.
    pub fn calculate_formatted_size(size: u64) -> (r: String)
        ensures
            r@ == spec_format_size(size),
    {
        format_size(size)
    }

    /// The display type label for a directory flag and an optional raw
    /// extension.  A directory is always labelled `"Directory"`, whatever
    /// the extension says.
    pub fn calculate_file_type(is_dir: bool, ext: &Option<String>) -> (r: String)
        ensures
            r@ == spec_file_type(is_dir, ext.deep_view()),
            is_dir ==> r@ == "Directory"@,
    {
        if is_dir {
            "Directory".to_owned()
        } else {
            match ext {
                Some(e) => label_for_ext(e.as_str()),
                None => "Unknown".to_owned(),
            }
        }
    }

    /// Whether the record's extension carries image capability.
    pub fn is_image(&self) -> (r: bool)
        ensures
            r == spec_is_image(self.ext.deep_view()),
    {
        match &self.ext {
            Some(e) => {
                let low = lowercase(e.as_str());
                in_image_set_exec(low.as_str())
            },
            None => false,
        }
    }

    /// Whether the record's extension carries text capability.
    pub fn is_text(&self) -> (r: bool)
        ensures
            r == spec_is_text(self.ext.deep_view()),
    {
        match &self.ext {
            Some(e) => {
                let low = lowercase(e.as_str());
                in_text_set_exec(low.as_str())
            },
            None => false,
        }
    }
}

} // verus!
