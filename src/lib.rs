//! A small directory-sharing HTTP server, as a verified library: resolution of
//! request paths under a root, the directory listing page, and the per-request
//! decision chain (serve a file, list a directory, or accept an upload).
//!
//! All I/O (the socket, the file system, multipart parsing) is left to the
//! caller, which feeds the outcomes back as events.

pub mod config;
pub mod path;
pub mod listing;
pub mod exchange;
