//! Static assets for a web server: declared once, resolved through an
//! optional chain of external text transformations, fingerprinted for cache
//! validation, and served under the conditional-GET contract.
//!
//! Nothing in this crate touches the file system or spawns a process.
//! Wherever a resolution needs outside work, it says which work it waits
//! for and takes the outcome back as a plain value.
//!
//! * [`file`] holds the declarations and the resolved assets, [`mime`] and
//!   [`digest`] their content types and entity tags.
//! * [`resolve`] turns a declaration into an asset, [`generate`] a list of
//!   declarations into the producers that a registry is to hold.
//! * [`quoted`] and [`literal`] write producers out as program text.
//! * [`registry`] is the write-once map that a process serves from, and
//!   [`web`] answers conditional requests from it.
//! * [`world`] states what resolutions, builds and answers come to as
//!   functions of their surroundings, and what holds of them.

pub mod digest;
pub mod file;
pub mod generate;
pub mod literal;
pub mod mime;
pub mod quoted;
pub mod registry;
pub mod resolve;
pub mod text;
pub mod tokens;
pub mod web;
pub mod world;

pub use crate::file::StaticFile;
pub use crate::generate::generate;
pub use crate::literal::generate_file;
pub use crate::quoted::load_files;
pub use crate::registry::{Producer, Registry};
pub use crate::web::{lookup_file, respond, Cached, IfNoneMatch, Lookup, StaticResponse};
