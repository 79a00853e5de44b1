use pfs::file_props::{
    FileDetails, FileProps, FilePropsType, FileRef, IconSource, TypeLabel, ICON_PIXEL_SIZE,
    THUMBNAIL_PIXEL_SIZE,
};

fn details() -> FileDetails {
    FileDetails {
        size: 2048,
        created: None,
        modified: Some("2025-01-02T03:04:05Z".to_string()),
        accessed: None,
        content_type: Some("text/plain".to_string()),
        thumbnail_path: None,
        thumbnail_valid: false,
        has_icon: true,
    }
}

fn props_for(uri: &str) -> FileProps {
    let mut p = FileProps::new();
    let query = p.set_file(Some(FileRef {
        uri: uri.to_string(),
        basename: Some("notes.txt".to_string()),
        parent_uri: Some("file:///home".to_string()),
    }));
    assert!(query);
    p
}

#[test]
fn new_shows_nothing() {
    let p = FileProps::new();
    assert!(p.file.is_none());
    assert!(matches!(p.type_label, TypeLabel::Unknown));
    assert!(matches!(p.icon, IconSource::Missing));
    assert_eq!(p.icon_pixel_size, ICON_PIXEL_SIZE);
    assert_eq!(p.file_to_string(), "");
    assert!(!p.parent_folder_to_row_visible());
}

#[test]
fn update_info_for_a_file() {
    let mut p = props_for("file:///home/notes.txt");
    p.update_info(&details());
    assert_eq!(p.size, Some(2048));
    assert_eq!(p.modified_row.as_deref(), Some("2025-01-02T03:04:05Z"));
    assert!(p.created_row.is_none());
    assert!(p.timestamp_group_visible);
    assert!(matches!(&p.type_label, TypeLabel::ContentType(t) if t == "text/plain"));
    assert!(matches!(p.icon, IconSource::FileIcon));
    assert_eq!(p.parent_folder.as_deref(), Some("file:///home"));
    assert!(p.parent_folder_to_row_visible());
    assert_eq!(p.file_type, FilePropsType::File);
    assert!(p.file_type_to_size_label_visible());
    assert_eq!(p.file_to_string(), "notes.txt");
}

#[test]
fn update_info_for_a_directory_with_thumbnail() {
    let mut p = props_for("file:///home/dir");
    let mut d = details();
    d.modified = None;
    d.content_type = Some("inode/directory".to_string());
    d.thumbnail_path = Some("/cache/t.png".to_string());
    d.thumbnail_valid = true;
    p.update_info(&d);
    assert_eq!(p.file_type, FilePropsType::Directory);
    assert!(!p.file_type_to_size_label_visible());
    assert!(matches!(p.type_label, TypeLabel::Directory));
    assert!(matches!(&p.icon, IconSource::Thumbnail(t) if t == "/cache/t.png"));
    assert_eq!(p.icon_pixel_size, THUMBNAIL_PIXEL_SIZE);
    assert!(!p.timestamp_group_visible);
}

#[test]
fn invalid_thumbnail_is_not_used() {
    let mut p = props_for("file:///home/a.png");
    let mut d = details();
    d.thumbnail_path = Some("/cache/t.png".to_string());
    d.thumbnail_valid = false;
    p.update_info(&d);
    assert!(matches!(p.icon, IconSource::FileIcon));
    assert_eq!(p.icon_pixel_size, ICON_PIXEL_SIZE);
}

#[test]
fn clear_info_resets_details() {
    let mut p = props_for("file:///home/notes.txt");
    p.update_info(&details());
    p.clear_info();
    assert!(p.size.is_none());
    assert!(p.modified_row.is_none());
    assert!(!p.timestamp_group_visible);
    assert!(matches!(p.type_label, TypeLabel::Unknown));
    assert!(matches!(p.icon, IconSource::Missing));
}

#[test]
fn done_is_sent_once() {
    let mut p = FileProps::new();
    let a = p.on_accept_clicked();
    assert_eq!(a.emit, Some(true));
    assert!(a.close);
    let c = p.on_close_requested();
    assert_eq!(c.emit, None);
    assert!(!c.close);
}

#[test]
fn close_before_accept_reports_failure() {
    let mut p = FileProps::new();
    let c = p.on_close_requested();
    assert_eq!(c.emit, Some(false));
    assert!(!c.close);
    assert!(p.done);
}

#[test]
fn no_file_no_query() {
    let mut p = FileProps::new();
    assert!(!p.set_file(None));
}
