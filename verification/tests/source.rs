use shorty::source::{
    file_metadata, select_input, stdin_metadata, ContentMetadata, ResolvedSource, UploadSource,
};

const PNG_SIGNATURE: [u8; 8] = [0x89, 0x50, 0x4E, 0x47, 0x0D, 0x0A, 0x1A, 0x0A];

fn resolved(source: UploadSource) -> ContentMetadata {
    ResolvedSource::resolve(source).into_parts().1
}

#[test]
fn no_argument_stands_for_standard_input() {
    assert_eq!(select_input(None), None);
}

#[test]
fn dash_stands_for_standard_input() {
    assert_eq!(select_input(Some("-".to_string())), None);
}

#[test]
fn any_other_argument_names_a_file() {
    assert_eq!(select_input(Some("photo.png".to_string())), Some("photo.png".to_string()));
    assert_eq!(select_input(Some("--".to_string())), Some("--".to_string()));
    assert_eq!(select_input(Some("".to_string())), Some("".to_string()));
    assert_eq!(select_input(Some("-x".to_string())), Some("-x".to_string()));
}

#[test]
fn png_file_is_known_by_its_name() {
    let meta = resolved(UploadSource::FileSource {
        path: "/tmp/photo.png".to_string(),
        known_size: 4096,
    });
    assert_eq!(meta.extension.as_deref(), Some("png"));
    assert_eq!(meta.mime.as_deref(), Some("image/png"));
    assert_eq!(meta.length, 4096);
}

#[test]
fn file_without_extension_has_no_type() {
    let meta = resolved(UploadSource::FileSource { path: "/tmp/README".to_string(), known_size: 7 });
    assert_eq!(meta.extension, None);
    assert_eq!(meta.mime, None);
    assert_eq!(meta.length, 7);
}

#[test]
fn unknown_extension_is_kept_without_media_type() {
    let meta = resolved(UploadSource::FileSource {
        path: "notes.zzzunknown".to_string(),
        known_size: 0,
    });
    assert_eq!(meta.extension.as_deref(), Some("zzzunknown"));
    assert_eq!(meta.mime, None);
    assert_eq!(meta.length, 0);
}

#[test]
fn hidden_file_has_no_extension() {
    let meta = resolved(UploadSource::FileSource { path: ".bashrc".to_string(), known_size: 1 });
    assert_eq!(meta.extension, None);
    assert_eq!(meta.mime, None);
}

#[test]
fn last_extension_counts() {
    let meta = resolved(UploadSource::FileSource {
        path: "backup.tar.gz".to_string(),
        known_size: 10,
    });
    assert_eq!(meta.extension.as_deref(), Some("gz"));
    assert_eq!(meta.mime.as_deref(), Some("application/gzip"));
}

#[test]
fn media_type_lookup_ignores_case() {
    let meta = resolved(UploadSource::FileSource { path: "PHOTO.PNG".to_string(), known_size: 3 });
    assert_eq!(meta.extension.as_deref(), Some("PNG"));
    assert_eq!(meta.mime.as_deref(), Some("image/png"));
}

#[test]
fn piped_png_is_known_by_its_signature() {
    let mut bytes = PNG_SIGNATURE.to_vec();
    bytes.extend_from_slice(&[0, 0, 0, 13, 73, 72, 68, 82]);
    let meta = resolved(UploadSource::StdinSource { buffered_bytes: bytes });
    assert_eq!(meta.extension.as_deref(), Some("png"));
    assert_eq!(meta.mime.as_deref(), Some("image/png"));
    assert_eq!(meta.length, 16);
}

#[test]
fn piped_bytes_without_signature_have_no_type() {
    let meta = resolved(UploadSource::StdinSource { buffered_bytes: b"just some words".to_vec() });
    assert_eq!(meta.extension, None);
    assert_eq!(meta.mime, None);
    assert_eq!(meta.length, 15);
}

#[test]
fn empty_input_has_no_type_and_no_length() {
    let meta = resolved(UploadSource::StdinSource { buffered_bytes: Vec::new() });
    assert_eq!(meta, ContentMetadata { extension: None, mime: None, length: 0 });
}

#[test]
fn resolving_keeps_the_source() {
    let source = UploadSource::StdinSource { buffered_bytes: vec![1, 2, 3] };
    let (kept, meta) = ResolvedSource::resolve(source.clone()).into_parts();
    assert_eq!(kept, source);
    assert_eq!(meta.length, 3);
}

#[test]
fn signature_gives_both_or_neither() {
    let typed = stdin_metadata(Some(("gif".to_string(), "image/gif".to_string())), 9);
    assert_eq!(
        typed,
        ContentMetadata {
            extension: Some("gif".to_string()),
            mime: Some("image/gif".to_string()),
            length: 9
        }
    );
    assert_eq!(
        stdin_metadata(None, 9),
        ContentMetadata { extension: None, mime: None, length: 9 }
    );
}

#[test]
fn file_metadata_holds_what_the_name_gave() {
    assert_eq!(
        file_metadata(Some("txt".to_string()), None, 12),
        ContentMetadata { extension: Some("txt".to_string()), mime: None, length: 12 }
    );
}
