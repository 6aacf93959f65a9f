use codexola::attachments::{
    attachment_extension, attachment_file_name, check_attachment, extension_for_mime,
    file_name_of, AttachmentError,
};

#[test]
fn empty_attachment_is_refused() {
    assert_eq!(check_attachment(0), Err(AttachmentError::Empty));
    assert_eq!(check_attachment(1), Ok(()));
    assert_eq!(check_attachment(usize::MAX), Ok(()));
}

#[test]
fn image_types_have_extensions() {
    assert_eq!(extension_for_mime("image/png"), Some("png"));
    assert_eq!(extension_for_mime("image/jpeg"), Some("jpg"));
    assert_eq!(extension_for_mime("image/jpg"), Some("jpg"));
    assert_eq!(extension_for_mime("image/webp"), Some("webp"));
    assert_eq!(extension_for_mime("image/gif"), Some("gif"));
    assert_eq!(extension_for_mime("image/heic"), Some("heic"));
    assert_eq!(extension_for_mime("image/heif"), Some("heif"));
    assert_eq!(extension_for_mime("image/bmp"), Some("bmp"));
    assert_eq!(extension_for_mime("image/tiff"), Some("tiff"));
    assert_eq!(extension_for_mime("image/PNG"), None);
    assert_eq!(extension_for_mime("image/svg+xml"), None);
    assert_eq!(extension_for_mime("text/plain"), None);
    assert_eq!(extension_for_mime(""), None);
}

#[test]
fn extension_of_the_name_wins() {
    assert_eq!(attachment_extension(Some("PNG"), Some("image/jpeg")), "png");
    assert_eq!(attachment_extension(Some("JpEg"), None), "jpeg");
    assert_eq!(attachment_extension(Some(""), Some("image/png")), "");
    assert_eq!(attachment_extension(None, Some("image/jpeg")), "jpg");
    assert_eq!(attachment_extension(None, Some("application/pdf")), "img");
    assert_eq!(attachment_extension(None, None), "img");
}

#[test]
fn file_name_is_stem_dot_extension() {
    assert_eq!(file_name_of("abc".to_string(), "png"), "abc.png");
    assert_eq!(file_name_of(String::new(), ""), ".");
}

#[test]
fn fresh_file_names_differ_and_end_in_the_extension() {
    let a = attachment_file_name("png");
    let b = attachment_file_name("png");
    assert!(a.ends_with(".png"));
    assert!(a.len() > ".png".len());
    assert_ne!(a, b);
}

#[test]
fn attachments_lie_in_the_workspace() {
    assert_eq!(
        codexola::attachments::attachments_dir("/w/project"),
        vec!["/w/project", ".codex", "attachments"]
    );
}

#[test]
fn stored_attachment_is_answered_with_its_path() {
    let answer = codexola::attachments::attachment_saved("/w/.codex/attachments/a.png");
    let expected: serde_json::Value =
        serde_json::from_str("{\"path\":\"/w/.codex/attachments/a.png\"}").unwrap();
    assert_eq!(answer, expected);
}
