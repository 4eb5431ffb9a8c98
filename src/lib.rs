//! Mirrors the files of a dotfiles repository into a home directory as
//! symbolic links, honouring per-directory ignore files.
pub mod path;
pub mod entry;
pub mod error;
pub mod walk;
pub mod config;
pub mod session;
pub mod sync;
pub mod model;
pub mod repo;
