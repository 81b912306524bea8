//! Streaming extraction of an archive stored remotely: a read-ahead reader over
//! ranged fetches, the rules that turn decoded entries into uploads, and the
//! checks made before any data moves.

pub mod entry;
pub mod error;
pub mod job;
pub mod object_reader;
pub mod preflight;
pub mod read_model;
