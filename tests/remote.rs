use list_of_lists::remote::{DropboxGetFileBody, DropboxGetFileMetadataBody};

#[test]
fn metadata_request_body() {
    let body = DropboxGetFileMetadataBody::from_path("/lists/foo.json");
    assert_eq!(body.path, "/lists/foo.json");
    assert!(!body.include_media_info && !body.include_deleted);
    assert!(!body.include_has_explicit_shared_members);
    assert_eq!(
        body.to_json(),
        r#"{"include_deleted":false,"include_has_explicit_shared_members":false,"include_media_info":false,"path":"/lists/foo.json"}"#
    );
}

#[test]
fn download_request_body() {
    let body = DropboxGetFileBody::from_path("/lists/\"q\".json");
    assert_eq!(body.to_json(), r#"{"path":"/lists/\"q\".json"}"#);
}
