//! A connector that exposes a remote spreadsheet-like source as a sequence of
//! typed rows through a pull-based scan protocol: acquire a credential, issue
//! one bulk fetch, strip and decode the response's guarded JSON envelope, and
//! drive a row cursor that maps each sparse, loosely-typed source row onto the
//! host's declared columns. The write path is unsupported by design.
//!
//! Everything that decides or computes lives here, verified; the shell that
//! performs the network I/O hands in plain events and bodies and takes plain
//! values back.

pub mod auth;
pub mod cells;
pub mod errors;
pub mod json;
pub mod laws;
pub mod options;
pub mod parse;
pub mod request;
pub mod scan;
