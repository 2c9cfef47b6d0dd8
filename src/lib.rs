//! A small HTTP file server's request logic: mapping request paths onto a
//! served root directory without leaving it, choosing between a file, an
//! index page and a generated directory listing, and rendering that listing.
use vstd::prelude::*;

pub mod config;
pub mod handler;
pub mod listing;
pub mod path;

pub use config::ServerConfig;
pub use handler::AppState;

verus! {

} // verus!
