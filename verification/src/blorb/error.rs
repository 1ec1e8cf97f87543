use vstd::prelude::*;

verus! {

/// Error module
#[derive(Debug, PartialEq, Eq)]
pub enum BlorbError {
    /// Input file is not of an IFF "FORM" type
    InvalidFileType,
    /// Attempted to read a resource type that does not exist in blorb files
    InvalidResourceType(String),
    /// User asked for an invalid resource ID
    NonExistentResource(usize),
    /// The requested chunk type was not found in the blorb file
    ChunkNotFound,
    /// Reached the end of the file
    EndOfFile,
    /// Could not convert generic blorb type into a known chunk type
    ConversionFailed,
    /// Could not convert slice of bytes into a valid utf8 string
    InvalidUtf8String,
}

impl BlorbError {
    /// A short description of the failure, for an embedding program to
    /// show.
    pub fn message(&self) -> (r: &'static str) {
        match self {
            BlorbError::InvalidFileType => "Not a FORM file",
            BlorbError::InvalidResourceType(_) => "Invalid resource type",
            BlorbError::NonExistentResource(_) => "No such resource",
            BlorbError::ChunkNotFound => "Chunk not found",
            BlorbError::EndOfFile => "End of file",
            BlorbError::ConversionFailed => "Cannot convert",
            BlorbError::InvalidUtf8String => "Not a utf8 string",
        }
    }
}

} // verus!
