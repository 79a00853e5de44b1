//! One entry of a directory listing.
use vstd::prelude::*;

use crate::text::strings_equal;

verus! {

/// The content type that marks a directory.
pub const DIRECTORY_CONTENT_TYPE: &'static str = "inode/directory";

/// One file or directory as a listing reports it.
#[derive(Clone, Debug)]
pub struct DirectoryEntry {
    /// The name shown to the user.
    pub display_name: String,
    /// The last component of the entry's path.
    pub basename: String,
    /// The MIME content type, empty when unknown.
    pub content_type: String,
    /// Modification time in microseconds since the epoch, if known.
    pub modified: Option<i64>,
    /// Size in bytes.
    pub size: u64,
    /// The entry's URI, which identifies it.
    pub uri: String,
    /// Whether a valid thumbnail is already known for the entry.
    pub thumbnail_valid: bool,
}

/// The content type of a directory, as characters.
pub open spec fn directory_type() -> Seq<char> {
    DIRECTORY_CONTENT_TYPE@
}

/// Whether the entry is a directory: its content type says so.
pub open spec fn is_dir(e: DirectoryEntry) -> bool {
    e.content_type@ == directory_type()
}

/// Whether the entry is hidden: its display name starts with a dot.
pub open spec fn is_hidden(e: DirectoryEntry) -> bool {
    e.display_name@.len() > 0 && e.display_name@[0] == '.'
}

impl DirectoryEntry {
    pub fn new(
        display_name: String,
        basename: String,
        content_type: String,
        modified: Option<i64>,
        size: u64,
        uri: String,
        thumbnail_valid: bool,
    ) -> (r: DirectoryEntry)
        ensures
            r.display_name == display_name,
            r.basename == basename,
            r.content_type == content_type,
            r.modified == modified,
            r.size == size,
            r.uri == uri,
            r.thumbnail_valid == thumbnail_valid,
    {
        DirectoryEntry { display_name, basename, content_type, modified, size, uri, thumbnail_valid }
    }

    /// Whether the entry is a directory.
    pub fn is_directory(&self) -> (r: bool)
        ensures
            r == is_dir(*self),
    {
        strings_equal(self.content_type.as_str(), DIRECTORY_CONTENT_TYPE)
    }

    /// Whether the entry's display name starts with a dot.
    pub fn is_hidden(&self) -> (r: bool)
        ensures
            r == is_hidden(*self),
    {
        let name = self.display_name.as_str();
        let n = name.unicode_len();
        n > 0 && name.get_char(0) == '.'
    }
}

} // verus!
