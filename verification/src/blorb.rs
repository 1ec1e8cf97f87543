//! A reader for IFF resource archives: the chunk-container format that
//! packages a game's executable, images, sounds and metadata. The reader
//! takes the file's bytes and hands out chunks; it never touches the
//! platform's files itself.

/// chunk types and resource usages
pub mod types;

/// errors
pub mod error;

/// raw and decoded chunks
pub mod chunk;

/// the byte cursor the reader walks with
pub mod stream;

/// the archive reader
pub mod reader;
