//! Directory listing: entry records built from raw metadata, the permission
//! string, the name-only and long renderings, and a depth-first walker.
pub mod perm;
pub mod text;
pub mod entry;
pub mod listing;
pub mod render;
pub mod walk;
