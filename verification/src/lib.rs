//! A library for writing Glk-based interactive-fiction interpreters: a window
//! tree manager, byte/character streams with echo redirection, and an event
//! queue with a timer, behind a single facade.

use vstd::prelude::*;

pub mod blorb;
pub mod codec;
pub mod entry;
pub mod events;
pub mod file_stream;
pub mod gestalt;
pub mod keycode;
pub mod mem_stream;
pub mod stream;
pub mod windows;

verus! {

/// A rock value: an opaque, caller-supplied tag attached to windows and file
/// references, stored but never interpreted.
pub type GlkRock = u32;

/// The mode a stream is opened in; it decides which operations the stream
/// accepts.
#[derive(Debug, Copy, Clone, PartialEq, Eq, Structural)]
pub enum GlkFileMode {
    /// Stream is read-only
    Read,
    /// Stream is write-only
    Write,
    /// Stream is read-write
    ReadWrite,
    /// Stream appends to the end of an existing file
    WriteAppend,
}

impl GlkFileMode {
    /// True of the modes that allow reading.
    pub open spec fn spec_is_read(&self) -> bool {
        self is Read || self is ReadWrite
    }

    /// True of the modes that allow writing.
    pub open spec fn spec_is_write(&self) -> bool {
        self is Write || self is ReadWrite || self is WriteAppend
    }

    /// is one of the read modes
    #[verifier::when_used_as_spec(spec_is_read)]
    pub fn is_read(&self) -> (r: bool)
        ensures
            r == self.spec_is_read(),
    {
        matches!(self, GlkFileMode::Read | GlkFileMode::ReadWrite)
    }

    /// is one of the write modes
    #[verifier::when_used_as_spec(spec_is_write)]
    pub fn is_write(&self) -> (r: bool)
        ensures
            r == self.spec_is_write(),
    {
        matches!(
            self,
            GlkFileMode::Write | GlkFileMode::ReadWrite | GlkFileMode::WriteAppend
        )
    }
}

/// Seek Modes
#[derive(Debug, Copy, Clone, PartialEq, Eq, Structural)]
pub enum GlkSeekMode {
    /// Seek to a position offset from the beginning of the file
    Start,
    /// Seek to a position relative to the current offset in the file
    Current,
    /// Seek to a position offset from the end of the file (offset must be 0 or negative)
    End,
}

/// File Usages
#[derive(Debug, Copy, Clone, PartialEq, Eq, Structural)]
pub enum GlkFileUsage {
    /// A file which stores game state.
    SavedGame,
    /// A file which contains a stream of text from the game (often an echo stream
    /// from a window.)
    Transcript,
    /// A file which records player input.
    InputRecord,
    /// Any other kind of file (preferences, statistics, arbitrary data.)
    Data,
    /// The file contents will be stored exactly as they are written, and read back
    /// in the same way. The resulting file may not be viewable on platform-native text
    /// file viewers.
    BinaryMode,
    /// The file contents will be transformed to a platform-native text file as they are
    /// written out, and native line breaks and character codes are converted back when
    /// it is read in.
    TextMode,
}

} // verus!
