//! The state of a file-properties window: what it shows of one file, and
//! whether it has reported that it is done.
use vstd::prelude::*;

use crate::entry::DIRECTORY_CONTENT_TYPE;
use crate::text::strings_equal;

verus! {

/// The kind of the file shown.
#[derive(Clone, Copy, Debug, PartialEq, Eq, Structural)]
pub enum FilePropsType {
    File,
    Directory,
}

/// A file, by what the window needs of it.
#[derive(Clone, Debug)]
pub struct FileRef {
    pub uri: String,
    /// The last component of its path, if it has one.
    pub basename: Option<String>,
    /// The URI of the folder holding it, if any.
    pub parent_uri: Option<String>,
}

/// What a query about a file returned.
#[derive(Clone, Debug)]
pub struct FileDetails {
    /// Size in bytes.
    pub size: i64,
    /// Creation, modification and access times, already formatted, where known.
    pub created: Option<String>,
    pub modified: Option<String>,
    pub accessed: Option<String>,
    pub content_type: Option<String>,
    pub thumbnail_path: Option<String>,
    pub thumbnail_valid: bool,
    /// Whether the file has an icon of its own.
    pub has_icon: bool,
}

/// What the type line says.
#[derive(Clone, Debug)]
pub enum TypeLabel {
    Unknown,
    Directory,
    ContentType(String),
}

/// Where the picture of the file comes from.
#[derive(Clone, Debug)]
pub enum IconSource {
    /// The stock "missing image" icon.
    Missing,
    /// The file's own icon.
    FileIcon,
    /// The thumbnail at this path.
    Thumbnail(String),
}

/// What the window reports when it is done, and whether it closes.
#[derive(Clone, Copy, Debug, PartialEq, Eq, Structural)]
pub struct DoneAction {
    /// `Some(success)` when the "done" signal is to be sent now.
    pub emit: Option<bool>,
    pub close: bool,
}

/// Icon size for a file icon or a missing one.
pub const ICON_PIXEL_SIZE: u32 = 128;

/// Icon size for a thumbnail.
pub const THUMBNAIL_PIXEL_SIZE: u32 = 256;

/// The state of a file-properties window.
#[derive(Clone, Debug)]
pub struct FileProps {
    pub file: Option<FileRef>,
    pub parent_folder: Option<String>,
    pub file_type: FilePropsType,
    /// The size shown, if the size line is visible.
    pub size: Option<i64>,
    pub created_row: Option<String>,
    pub modified_row: Option<String>,
    pub accessed_row: Option<String>,
    pub timestamp_group_visible: bool,
    pub type_label: TypeLabel,
    pub icon: IconSource,
    pub icon_pixel_size: u32,
    pub done: bool,
}

/// The view of an optional string.
pub open spec fn opt_chars(s: Option<String>) -> Option<Seq<char>> {
    match s {
        Some(t) => Some(t@),
        None => None,
    }
}

/// A row keeps its text unless a new one is known.
pub open spec fn row_after(old_row: Option<String>, new_text: Option<String>) -> Option<Seq<char>> {
    match new_text {
        Some(t) => Some(t@),
        None => opt_chars(old_row),
    }
}

/// What is known before any detail came: nothing but the file.
pub open spec fn is_cleared(p: FileProps) -> bool {
    &&& p.size is None
    &&& p.created_row is None
    &&& p.modified_row is None
    &&& p.accessed_row is None
    &&& !p.timestamp_group_visible
    &&& p.type_label is Unknown
    &&& p.icon is Missing
    &&& p.icon_pixel_size == ICON_PIXEL_SIZE
}

impl FileProps {
    /// A window for no file yet, showing nothing.
    pub fn new() -> (r: FileProps)
        ensures
            r.file is None,
            r.parent_folder is None,
            r.file_type == FilePropsType::File,
            !r.done,
            is_cleared(r),
    {
        FileProps {
            file: None,
            parent_folder: None,
            file_type: FilePropsType::File,
            size: None,
            created_row: None,
            modified_row: None,
            accessed_row: None,
            timestamp_group_visible: false,
            type_label: TypeLabel::Unknown,
            icon: IconSource::Missing,
            icon_pixel_size: ICON_PIXEL_SIZE,
            done: false,
        }
    }

    /// Forgets every detail shown.
    pub fn clear_info(&mut self)
        ensures
            is_cleared(*final(self)),
            final(self).file == old(self).file,
            final(self).parent_folder == old(self).parent_folder,
            final(self).file_type == old(self).file_type,
            final(self).done == old(self).done,
    {
        self.size = None;
        self.created_row = None;
        self.modified_row = None;
        self.accessed_row = None;
        self.timestamp_group_visible = false;
        self.type_label = TypeLabel::Unknown;
        self.icon = IconSource::Missing;
        self.icon_pixel_size = ICON_PIXEL_SIZE;
    }

    /// Sets the file to show. A file clears what was shown, so that its
    /// details can be asked for; returns whether they should be.
    pub fn set_file(&mut self, file: Option<FileRef>) -> (query: bool)
        ensures
            query == file is Some,
            final(self).file == file,
            query ==> is_cleared(*final(self)),
            !query ==> final(self).size == old(self).size,
            final(self).parent_folder == old(self).parent_folder,
            final(self).file_type == old(self).file_type,
            final(self).done == old(self).done,
    {
        let query = file.is_some();
        self.file = file;
        if query {
            self.clear_info();
        }
        query
    }

    /// Shows the details that a query returned: the size; each time that is
    /// known; the content type, or "directory" (which makes the file a
    /// directory); the thumbnail when it is valid, else the file's own icon;
    /// and the folder that holds the file.
    pub fn update_info(&mut self, info: &FileDetails)
        ensures
            final(self).size == Some(info.size),
            opt_chars(final(self).created_row) == row_after(old(self).created_row, info.created),
            opt_chars(final(self).modified_row) == row_after(old(self).modified_row, info.modified),
            opt_chars(final(self).accessed_row) == row_after(old(self).accessed_row, info.accessed),
            final(self).timestamp_group_visible == (old(self).timestamp_group_visible
                || info.created is Some || info.modified is Some || info.accessed is Some),
            match info.content_type {
                Some(ct) => if ct@ == DIRECTORY_CONTENT_TYPE@ {
                    final(self).file_type == FilePropsType::Directory
                        && final(self).type_label is Directory
                } else {
                    final(self).file_type == old(self).file_type
                        && (final(self).type_label matches TypeLabel::ContentType(l) && l@ == ct@)
                },
                None => final(self).file_type == old(self).file_type
                    && final(self).type_label == old(self).type_label,
            },
            match info.thumbnail_path {
                Some(p) if info.thumbnail_valid => final(self).icon matches IconSource::Thumbnail(t)
                    && t@ == p@ && final(self).icon_pixel_size == THUMBNAIL_PIXEL_SIZE,
                _ => if info.has_icon {
                    final(self).icon is FileIcon && final(self).icon_pixel_size == ICON_PIXEL_SIZE
                } else {
                    final(self).icon == old(self).icon && final(self).icon_pixel_size
                        == old(self).icon_pixel_size
                },
            },
            final(self).parent_folder == match old(self).file {
                Some(f) => f.parent_uri,
                None => old(self).parent_folder,
            },
            final(self).file == old(self).file,
            final(self).done == old(self).done,
    {
        self.size = Some(info.size);
        let mut have_timestamp = false;
        if let Some(t) = &info.created {
            self.created_row = Some(t.clone());
            have_timestamp = true;
        }
        if let Some(t) = &info.modified {
            self.modified_row = Some(t.clone());
            have_timestamp = true;
        }
        if let Some(t) = &info.accessed {
            self.accessed_row = Some(t.clone());
            have_timestamp = true;
        }
        if have_timestamp {
            self.timestamp_group_visible = true;
        }
        if let Some(ct) = &info.content_type {
            if strings_equal(ct.as_str(), DIRECTORY_CONTENT_TYPE) {
                self.file_type = FilePropsType::Directory;
                self.type_label = TypeLabel::Directory;
            } else {
                self.type_label = TypeLabel::ContentType(ct.clone());
            }
        }
        let mut have_thumbnail = false;
        if let Some(p) = &info.thumbnail_path {
            if info.thumbnail_valid {
                self.icon = IconSource::Thumbnail(p.clone());
                self.icon_pixel_size = THUMBNAIL_PIXEL_SIZE;
                have_thumbnail = true;
            }
        }
        if !have_thumbnail && info.has_icon {
            self.icon = IconSource::FileIcon;
            self.icon_pixel_size = ICON_PIXEL_SIZE;
        }
        if let Some(f) = &self.file {
            self.parent_folder = f.parent_uri.clone();
        }
    }

    /// Reports the end of the window's work: the "done" signal goes out the
    /// first time only, with `success`; the window closes when asked.
    pub fn send_done(&mut self, success: bool, close: bool) -> (r: DoneAction)
        ensures
            r.emit == if old(self).done {
                None
            } else {
                Some(success)
            },
            r.close == close,
            final(self).done,
            final(self).file == old(self).file,
            final(self).parent_folder == old(self).parent_folder,
            final(self).file_type == old(self).file_type,
    {
        let emit = if !self.done {
            self.done = true;
            Some(success)
        } else {
            None
        };
        DoneAction { emit, close }
    }

    /// The window is being closed by the user: done without success, and
    /// the close goes ahead by itself.
    pub fn on_close_requested(&mut self) -> (r: DoneAction)
        ensures
            r.emit == if old(self).done {
                None
            } else {
                Some(false)
            },
            !r.close,
            final(self).done,
    {
        self.send_done(false, false)
    }

    /// The user accepted: done with success, and the window closes.
    pub fn on_accept_clicked(&mut self) -> (r: DoneAction)
        ensures
            r.emit == if old(self).done {
                None
            } else {
                Some(true)
            },
            r.close,
            final(self).done,
    {
        self.send_done(true, true)
    }

    /// The name shown for the file: its base name, or nothing.
    pub fn file_to_string(&self) -> (r: String)
        ensures
            r@ == match self.file {
                Some(f) => match f.basename {
                    Some(b) => b@,
                    None => Seq::<char>::empty(),
                },
                None => Seq::<char>::empty(),
            },
    {
        match &self.file {
            Some(f) => match &f.basename {
                Some(b) => b.clone(),
                None => String::new(),
            },
            None => String::new(),
        }
    }

    /// Whether the size line is shown: for files only.
    pub fn file_type_to_size_label_visible(&self) -> (r: bool)
        ensures
            r == (self.file_type == FilePropsType::File),
    {
        self.file_type == FilePropsType::File
    }

    /// Whether the line that opens the parent folder is shown.
    pub fn parent_folder_to_row_visible(&self) -> (r: bool)
        ensures
            r == self.parent_folder is Some,
    {
        self.parent_folder.is_some()
    }
}

} // verus!
