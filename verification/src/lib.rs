//! The core of a small password store.
//!
//! Secrets live as one encrypted file each in a store directory; a short
//! configuration file records where that directory is and which key the
//! secrets are encrypted to. The encryption itself, the clipboard, the file
//! system and the terminal belong to the program around this library. What
//! is decided here is everything in between: where files live, what the
//! configuration file says, which key identifier is recorded, which
//! arguments the encryption tool is started with, and whether an operation
//! may go ahead at all.

pub mod error;
pub mod paths;
pub mod table;
pub mod config;
pub mod keys;
pub mod secret;
pub mod store;
