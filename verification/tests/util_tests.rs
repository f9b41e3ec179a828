use rsweb_auth::util::{ext_from_mime_type, is_video, unix_secs};

#[test]
fn video_mime_types() {
    assert!(is_video("video/mp4"));
    assert!(is_video("video"));
    assert!(!is_video("vide"));
    assert!(!is_video("audio/mpeg"));
    assert!(!is_video(""));
}

#[test]
fn extensions_for_mime_types() {
    assert_eq!(ext_from_mime_type("video/mp4"), Some("mp4"));
    assert_eq!(ext_from_mime_type("video/quicktime"), Some("mov"));
    assert_eq!(ext_from_mime_type("video/x-msvideo"), Some("avi"));
    assert_eq!(ext_from_mime_type("video/avi"), Some("avi"));
    assert_eq!(ext_from_mime_type("video/webm"), Some("webm"));
    assert_eq!(ext_from_mime_type("video/3gpp2"), Some("3g2"));
    assert_eq!(ext_from_mime_type("video/unknown"), None);
    assert_eq!(ext_from_mime_type("image/png"), None);
}

#[test]
fn clock_reads_forward_of_the_epoch() {
    let now = unix_secs();
    assert!(now > 0);
}
