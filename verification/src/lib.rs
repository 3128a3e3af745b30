//! The session manager of a document viewer: which file is shown in which window, what
//! to do about each request to open a file, and how windows are brought to the front,
//! hidden and forgotten. The library decides; the shell around it owns the lock, the
//! clock and the windows.

pub mod activation;
pub mod commands;
pub mod ingestion;
pub mod lifecycle;
pub mod normalizer;
pub mod pending;
pub mod registry;
pub mod session;
pub mod text;
