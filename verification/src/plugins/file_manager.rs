//! The file manager: what it lists, the requests that it takes, and the
//! mount points that it keeps away from.

use crate::text::{after_word, chars_of, next_word, same_text, word_at};
use vstd::prelude::*;
use vstd::string::*;

verus! {

/// What an entry of a folder is.
#[derive(Clone, Debug)]
pub enum EntryType {
    Directory,
    File,
    SymLink(String),
    Unknown,
}

/// An entry of a folder.
#[derive(Clone, Debug)]
pub struct FileEntry {
    pub path: String,
    pub entry_type: EntryType,
    pub size: u64,
}

/// A file as text, with the type of its content.
#[derive(Clone, Debug)]
pub struct FileContents {
    pub contents: String,
    pub mime_type: String,
}

/// A request to list a folder.
#[derive(Clone, Debug)]
pub struct ListParams {
    pub path: String,
}

/// A request to read a file.
#[derive(Clone, Debug)]
pub struct FileParams {
    pub path: String,
}

/// A request to write a file.
#[derive(Clone, Debug)]
pub struct FileContentsParams {
    pub path: String,
    pub contents: Vec<u8>,
}

/// A request to make a folder.
#[derive(Clone, Debug)]
pub struct DirectoryCreateParams {
    pub path: String,
}

/// A request to rename a file or a folder.
#[derive(Clone, Debug)]
pub struct RenameParams {
    pub from: String,
    pub to: String,
}

/// A request to remove a file or a folder.
#[derive(Clone, Debug)]
pub struct DeleteParams {
    pub path: String,
}

/// Whether a line of the table of mounts says that a path is the mount point
/// of a `fuse` file system: its second word is the path and its third word is
/// `fuse`.
pub open spec fn fuse_line(line: Seq<char>, path: Seq<char>) -> bool {
    let second = after_word(line, 0);
    let third = after_word(line, second);
    word_at(line, second) == Some(path) && word_at(line, third) == Some("fuse"@)
}

/// Whether a line of the table of mounts says that a path is the mount point
/// of a `fuse` file system.
pub fn is_fuse_mount(line: &str, path: &str) -> (out: bool)
    ensures
        out == fuse_line(line@, path@),
{
    let chars = chars_of(line);
    let (_, second) = next_word(&chars, 0);
    let (mount, third) = next_word(&chars, second);
    let (kind, _) = next_word(&chars, third);
    match (mount, kind) {
        (Some(mount), Some(kind)) => same_text(mount.as_str(), path) && same_text(
            kind.as_str(),
            "fuse",
        ),
        _ => false,
    }
}

/// The size that a listing shows for an entry: the length of a file, and
/// nothing for anything else.
pub fn listed_size(entry_type: &EntryType, length: u64) -> (out: u64)
    ensures
        out == (if entry_type is File {
            length
        } else {
            0
        }),
{
    match entry_type {
        EntryType::File => length,
        _ => 0,
    }
}

} // verus!
