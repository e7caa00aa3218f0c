//! A small blog service's ingestion logic: identifiers, the blob store and
//! post repository, the avatar resolver and the submission pipeline.

pub mod args;
pub mod avatar;
pub mod db;
pub mod endpoints;
pub mod ident;
pub mod laws;
pub mod page;
pub mod sanitize;
pub mod submission;
pub mod text;

use vstd::prelude::*;

verus! {

/// Where the listing page is served, and where accepted submissions are sent.
pub const FRONTPAGE_LOCATION: &'static str = "/home";

/// The path prefix under which stored files are served.
pub const DATA_LOCATION: &'static str = "/data";

} // verus!
