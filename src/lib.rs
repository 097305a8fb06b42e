//! Local persistence of one opaque text document, kept in a per-user,
//! per-application storage root.
//!
//! The library decides what each operation does; the host performs the disk
//! work that it asks for and reports back what came of it.

pub mod location;
pub mod service;
pub mod laws;
