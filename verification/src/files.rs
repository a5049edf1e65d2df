//! Directory listings: what is recorded of each entry, and when a listing is
//! refused.

use vstd::prelude::*;
use crate::text::{to_owned, push_str};

verus! {

/// What a directory listing records of one entry.
#[derive(Debug)]
pub struct FileInfo {
    pub name: String,
    pub path: String,
    pub file_type: String,
    pub size: Option<u64>,
    pub modified: Option<u64>,
}

/// The kind of an entry by what its metadata says: a directory, a file, a
/// symbolic link, or unknown, tested in that order.
pub open spec fn entry_kind(is_dir: bool, is_file: bool, is_symlink: bool) -> Seq<char> {
    if is_dir {
        "directory"@
    } else if is_file {
        "file"@
    } else if is_symlink {
        "symlink"@
    } else {
        "unknown"@
    }
}

/// The record of one entry: its kind, and its size where it is a file.
pub fn file_info(name: String, path: String, is_dir: bool, is_file: bool, is_symlink: bool, len: u64,
    modified: Option<u64>) -> (f: FileInfo)
    ensures
        f.name@ == name@,
        f.path@ == path@,
        f.file_type@ == entry_kind(is_dir, is_file, is_symlink),
        f.size == (if is_file { Some(len) } else { None::<u64> }),
        f.modified == modified,
{
    let file_type = if is_dir {
        to_owned("directory")
    } else if is_file {
        to_owned("file")
    } else if is_symlink {
        to_owned("symlink")
    } else {
        to_owned("unknown")
    };
    FileInfo { name, path, file_type, size: if is_file { Some(len) } else { None }, modified }
}

/// Whether a path can be listed: it must exist and be a directory.
pub open spec fn listing_refusal(shown_path: Seq<char>, exists: bool, is_dir: bool) -> Option<Seq<char>> {
    if !exists {
        Some("Path does not exist: "@ + shown_path)
    } else if !is_dir {
        Some("Path is not a directory: "@ + shown_path)
    } else {
        None
    }
}

/// Checks that a path can be listed; the error names the path as shown.
pub fn check_listing(shown_path: &str, exists: bool, is_dir: bool) -> (r: Result<(), String>)
    ensures
        match listing_refusal(shown_path@, exists, is_dir) {
            Some(m) => r matches Err(e) && e@ == m,
            None => r is Ok,
        },
{
    if !exists {
        let mut m = to_owned("Path does not exist: ");
        push_str(&mut m, shown_path);
        Err(m)
    } else if !is_dir {
        let mut m = to_owned("Path is not a directory: ");
        push_str(&mut m, shown_path);
        Err(m)
    } else {
        Ok(())
    }
}

/// The error when a directory cannot be read.
pub fn read_dir_failure(detail: &str) -> (r: String)
    ensures
        r@ == "Failed to read directory: "@ + detail@,
{
    let mut m = to_owned("Failed to read directory: ");
    push_str(&mut m, detail);
    m
}

} // verus!
