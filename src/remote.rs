//! The request bodies sent to the remote document store.
use vstd::prelude::*;

use crate::json::{json_bool, json_map_insert, json_map_new, json_object, json_str, json_text, json_to_text, Json, JsonFields};

verus! {

/// The body of a metadata request for one document.
#[derive(Debug, PartialEq, Eq)]
pub struct DropboxGetFileMetadataBody {
    pub path: String,
    pub include_media_info: bool,
    pub include_deleted: bool,
    pub include_has_explicit_shared_members: bool,
}

/// The JSON object of a metadata request for `path`, with no extras asked for.
pub open spec fn metadata_body_json(path: Seq<char>, media: bool, deleted: bool, shared: bool) -> Json {
    Json::Object(
        JsonFields::empty().insert("path"@, Json::Str(path)).insert(
            "include_media_info"@,
            Json::Bool(media),
        ).insert("include_deleted"@, Json::Bool(deleted)).insert(
            "include_has_explicit_shared_members"@,
            Json::Bool(shared),
        ),
    )
}

impl DropboxGetFileMetadataBody {
    /// A request for the metadata of `path` alone.
    pub fn from_path(path: &str) -> (r: DropboxGetFileMetadataBody)
        ensures
            r.path@ == path@,
            !r.include_media_info,
            !r.include_deleted,
            !r.include_has_explicit_shared_members,
    {
        DropboxGetFileMetadataBody {
            path: path.to_owned(),
            include_media_info: false,
            include_deleted: false,
            include_has_explicit_shared_members: false,
        }
    }

    /// The body as JSON text.
    pub fn to_json(&self) -> (r: String)
        ensures
            r@ == json_text(
                metadata_body_json(
                    self.path@,
                    self.include_media_info,
                    self.include_deleted,
                    self.include_has_explicit_shared_members,
                ),
            ),
    {
        let mut m = json_map_new();
        json_map_insert(&mut m, "path".to_owned(), json_str(self.path.clone()));
        json_map_insert(&mut m, "include_media_info".to_owned(), json_bool(self.include_media_info));
        json_map_insert(&mut m, "include_deleted".to_owned(), json_bool(self.include_deleted));
        json_map_insert(
            &mut m,
            "include_has_explicit_shared_members".to_owned(),
            json_bool(self.include_has_explicit_shared_members),
        );
        json_to_text(&json_object(m))
    }
}

/// The body of a download request for one document.
#[derive(Debug, PartialEq, Eq)]
pub struct DropboxGetFileBody {
    pub path: String,
}

/// The JSON object of a download request for `path`.
pub open spec fn file_body_json(path: Seq<char>) -> Json {
    Json::Object(JsonFields::empty().insert("path"@, Json::Str(path)))
}

impl DropboxGetFileBody {
    /// A request for the document at `path`.
    pub fn from_path(path: &str) -> (r: DropboxGetFileBody)
        ensures
            r.path@ == path@,
    {
        DropboxGetFileBody { path: path.to_owned() }
    }

    /// The body as JSON text.
    pub fn to_json(&self) -> (r: String)
        ensures
            r@ == json_text(file_body_json(self.path@)),
    {
        let mut m = json_map_new();
        json_map_insert(&mut m, "path".to_owned(), json_str(self.path.clone()));
        json_to_text(&json_object(m))
    }
}

} // verus!
