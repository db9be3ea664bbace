use tenex_tui::clipboard::{
    clipboard_image_upload, image_mime_type, pasted_file_path, pasted_image_mime, unescape_spaces,
    urlencoded_decode,
};

#[test]
fn decodes_percent_escapes() {
    assert_eq!(urlencoded_decode("/tmp/my%20file.png"), "/tmp/my file.png");
    assert_eq!(urlencoded_decode("%41%62c"), "Abc");
    assert_eq!(urlencoded_decode("%e9"), "\u{e9}");
    assert_eq!(urlencoded_decode("plain"), "plain");
}

#[test]
fn keeps_invalid_escapes() {
    assert_eq!(urlencoded_decode("100%"), "100%");
    assert_eq!(urlencoded_decode("%zz!"), "%zz!");
    assert_eq!(urlencoded_decode("%4"), "\u{4}");
    assert_eq!(urlencoded_decode("%-1x"), "%-1x");
    assert_eq!(urlencoded_decode("%%41"), "%%41");
}

#[test]
fn plus_sign_is_accepted_as_from_str_radix_does() {
    assert_eq!(urlencoded_decode("%+9z"), "\u{9}z");
    assert_eq!(urlencoded_decode("%+"), "%+");
}

#[test]
fn unescapes_drag_and_drop_spaces() {
    assert_eq!(unescape_spaces("/a\\ b\\ c.png"), "/a b c.png");
    assert_eq!(unescape_spaces("\\\\ x"), "\\ x");
    assert_eq!(unescape_spaces("tail\\"), "tail\\");
}

#[test]
fn pasted_paths() {
    assert_eq!(pasted_file_path("   "), None);
    assert_eq!(
        pasted_file_path(" file:///home/me/a%20b.jpg \n").as_deref(),
        Some("/home/me/a b.jpg")
    );
    assert_eq!(pasted_file_path("/x/My\\ Pic.gif").as_deref(), Some("/x/My Pic.gif"));
}

#[test]
fn image_extensions() {
    assert_eq!(image_mime_type("png"), Some("image/png"));
    assert_eq!(image_mime_type("jpg"), Some("image/jpeg"));
    assert_eq!(image_mime_type("jpeg"), Some("image/jpeg"));
    assert_eq!(image_mime_type("gif"), Some("image/gif"));
    assert_eq!(image_mime_type("webp"), Some("image/webp"));
    assert_eq!(image_mime_type("bmp"), Some("image/bmp"));
    assert_eq!(image_mime_type("PNG"), None);
    assert_eq!(image_mime_type("txt"), None);
}

#[test]
fn clipboard_pixels_become_png() {
    let upload = clipboard_image_upload(1, 1, &[255, 0, 0, 255]).ok().unwrap();
    assert_eq!(upload.mime_type, "image/png");
    assert_eq!(&upload.data[..8], &[137, 80, 78, 71, 13, 10, 26, 10]);
    assert_eq!(upload.data, clipboard_image_upload(1, 1, &[255, 0, 0, 255]).ok().unwrap().data);
    let wrong = clipboard_image_upload(2, 2, &[0, 0, 0, 0]).err().unwrap();
    assert!(wrong.starts_with("Failed to convert image: "));
    assert!(wrong.len() > "Failed to convert image: ".len());
}

#[test]
fn image_extensions_in_any_case() {
    assert_eq!(pasted_image_mime("PNG"), Some("image/png"));
    assert_eq!(pasted_image_mime("JpEg"), Some("image/jpeg"));
    assert_eq!(pasted_image_mime("webp"), Some("image/webp"));
    assert_eq!(pasted_image_mime("txt"), None);
}

#[test]
fn decoding_laws_on_examples() {
    assert_eq!(urlencoded_decode("/plain/path.png"), "/plain/path.png");
    for s in ["%", "%4", "%41", "%zz%41x", "a%2"] {
        assert!(urlencoded_decode(s).chars().count() <= s.chars().count());
    }
    let path = "/Users/me/My Pics/a+b.png";
    let encoded: String = path.chars().map(|c| format!("%{:02X}", c as u32)).collect();
    assert_eq!(urlencoded_decode(&encoded), path);
}
