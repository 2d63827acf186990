use url_uploader::naming::{file_name, has_char, has_prefix, has_suffix, is_video, name_from_disposition, raw_name};

#[test]
fn quoted_disposition_name() {
    assert_eq!(name_from_disposition("attachment; filename=\"report.pdf\"").as_deref(), Some("report.pdf"));
}

#[test]
fn first_filename_field_wins() {
    assert_eq!(name_from_disposition("attachment;  filename=a.txt ; filename=b.txt").as_deref(), Some("a.txt"));
}

#[test]
fn disposition_without_name() {
    assert_eq!(name_from_disposition("inline"), None);
    assert_eq!(name_from_disposition(""), None);
    assert_eq!(name_from_disposition("attachment; name=x"), None);
}

#[test]
fn repeated_key_and_quotes_are_stripped() {
    assert_eq!(name_from_disposition("filename=filename=\"\"x\"\"").as_deref(), Some("x"));
    assert_eq!(name_from_disposition("filename=\"\"").as_deref(), Some(""));
}

#[test]
fn path_segment_with_dot_is_kept() {
    assert_eq!(raw_name(None, Some("archive.zip"), Some("bin")), "archive.zip");
    assert_eq!(raw_name(Some("inline"), Some("archive.zip"), None), "archive.zip");
}

#[test]
fn header_name_comes_first() {
    assert_eq!(raw_name(Some("attachment; filename=r.pdf"), Some("archive.zip"), None), "r.pdf");
}

#[test]
fn extension_from_content_type() {
    assert_eq!(raw_name(None, Some("download"), Some("pdf")), "download.pdf");
}

#[test]
fn fallback_name() {
    assert_eq!(raw_name(None, Some("download"), None), "file.bin");
    assert_eq!(raw_name(None, None, Some("pdf")), "file.bin");
}

#[test]
fn percent_decoded_name() {
    assert_eq!(file_name(None, Some("my%20file.txt"), None).as_deref(), Some("my file.txt"));
    assert_eq!(file_name(Some("attachment; filename=\"caf%C3%A9.txt\""), None, None).as_deref(), Some("café.txt"));
}

#[test]
fn undecodable_name_is_refused() {
    assert_eq!(file_name(None, Some("bad%FF.txt"), None), None);
}

#[test]
fn name_from_mime_type() {
    assert_eq!(file_name(None, Some("download"), Some("application/pdf")).as_deref(), Some("download.pdf"));
    assert_eq!(file_name(None, Some("download"), Some("no-such/type")).as_deref(), Some("file.bin"));
}

#[test]
fn video_detection() {
    assert!(is_video(Some("video/mp4"), "x"));
    assert!(is_video(Some("video/mp4; codecs=avc1"), "x.bin"));
    assert!(is_video(None, "CLIP.MP4"));
    assert!(!is_video(Some("text/plain"), "a.txt"));
    assert!(!is_video(Some("video/webm"), "a.webm"));
}

#[test]
fn text_helpers() {
    assert!(has_prefix("filename=x", "filename="));
    assert!(!has_prefix("file", "filename="));
    assert!(has_suffix("a.mp4", ".mp4"));
    assert!(!has_suffix("mp4", ".mp4"));
    assert!(has_char("a.b", '.'));
    assert!(!has_char("ab", '.'));
}
