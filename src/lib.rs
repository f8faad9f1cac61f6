//! Publishes a page of lists: the list data are read and validated, rendered
//! through a template and written out; a synchronizer keeps the stored copy
//! of the data in step with the remote document they are written in.
use vstd::prelude::*;

pub mod codec;
pub mod error;
pub mod ident;
pub mod json;
pub mod model;
pub mod remote;
pub mod render;
pub mod sync;
mod text;

pub use error::{ListError, MetadataField};
pub use ident::div_id_safe;
pub use model::{Footer, FooterItem, List, ListItem, ListOfLists};

verus! {

/// The name of the application, as loggers know it.
pub const APP_NAME: &'static str = "list_of_lists";

/// The environment variable that names the site.
pub const SITE_NAME_VAR: &'static str = "LOL_SITE";

/// The environment variable that gives the site's address.
pub const SITE_URL_VAR: &'static str = "LOL_SITE_URL";

/// The environment variable that holds the remote store's access key.
pub const DB_KEY_VAR: &'static str = "LOL_DB_KEY";

/// The environment variable that gives the document's remote path.
pub const DB_PATH_VAR: &'static str = "LOL_DB_PATH";

} // verus!
