//! Core of a local tool server: tool registry and dispatch, incremental
//! indexing of a project tree into content-addressed blobs, and the
//! decisions around uploading and retrieving them.

pub mod admin;
pub mod chunking;
pub mod enhance;
pub mod identity;
pub mod incremental;
pub mod indexing;
pub mod logging;
pub mod projects;
pub mod requests;
pub mod retry;
pub mod scan;
pub mod scoring;
pub mod search;
pub mod server;
pub mod settings;
pub mod text;
pub mod tools;
pub mod wire;
