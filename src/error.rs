use vstd::prelude::*;

use crate::model::ListItem;

verus! {

/// A field of a metadata response.
#[derive(Clone, Copy, Debug, PartialEq, Eq, Structural)]
pub enum MetadataField {
    /// The time the remote document was last changed.
    ClientModified,
    /// The stored object's entity tag.
    ETag,
    /// The time the stored object was last written.
    LastModified,
}

/// Why a step of the library failed.
#[derive(Debug, PartialEq, Eq)]
pub enum ListError {
    /// The data is not JSON, or does not have the shape of a list of lists.
    Parse,
    /// A list that allows no duplicates holds the same item twice: the
    /// list's title and its items.
    Duplicates { title: String, items: Vec<ListItem> },
    /// The template could not be rendered.
    Render,
    /// The rendered page could not be minified.
    Minify,
    /// A metadata response lacks a field, or holds one of the wrong kind.
    MissingField { field: MetadataField },
    /// A time stamp could not be read.
    Timestamp,
    /// An event came that the synchronizer was not waiting for.
    UnexpectedEvent,
}

} // verus!
