use vstd::prelude::*;
use crate::keycode::Keycode;
use crate::windows::WindowType;

verus! {

/// The gestalt system
#[derive(Debug, PartialEq, Eq, Structural)]
pub enum Gestalt {
    /// retrieve the version value
    Version,
    /// Can LineInput accept a given Latin-1 character
    LineInput(char),
    /// Can CharInput accept a given Latin-1 character
    CharInput(Keycode),
    /// Can a given character be printed by the glk library?
    CharOutput(Keycode),
    /// Can the glk library handle mouse input
    MouseInput,
    /// Does the glk library support timers
    Timer,
    /// Can the glk library display graphics
    Graphics,
    /// Can the glk's library graphics routines handle transparency?
    GraphicsTransparency,
    /// Can the glk library return character input events from graphics windows
    GraphicsCharInput,
    /// Can the glk library draw images in a window of a given type
    DrawImage(WindowType),
    /// Can we handle unicode
    Unicode,
    /// Can the library do unicode normalization
    UnicodeNorm,
    /// Can play sound with the pre-0.7.3 library functions
    Sound,
    /// Can set sound volume
    SoundVolume,
    /// Can send events when sound stops playing
    SoundNotify,
    /// Can the library handle "MOD" style resource sounds
    SoundMusic,
    /// Can the library handle 0.7.3 and later sound library functions
    Sound2,
    /// Can the library suppress the line input being echoed to the window
    LineInputEcho,
    /// Can the VM tell the library what line terminator characters there are
    LineTerminators,
    /// Is the specified character able to be used as a line terminator
    LineTerminatorKey(Keycode),
    /// Can we retrieve the date and time from the glk library
    DateTime,
    /// Can we open and read resources streams
    ResourceStream,
}

/// The responses for different gestalt queries
#[derive(Debug, PartialEq, Eq, Structural)]
pub enum GestaltResult {
    /// The version number of the current library
    Version(u32),
    /// Is the requested gestalt entry handled by the Glk library?
    CanAccept(bool),
    /// Method by which a character can be printed
    CharOutput(OutputType),
}

/// The way a given character will be represented on screen
#[derive(Debug, PartialEq, Eq, Structural)]
pub enum OutputType {
    /// This character cannot be printed, and may not display anything
    CannotPrint(u32),
    /// The character will be displayed exactly as requested
    ExactPrint,
    /// The character will be approximated using possibly multiple characters
    ApproxPrint(u32),
}

/// The Glk spec requires that all valid characters are in the range 32 to 126.
pub open spec fn is_glk_char(ch: char) -> bool {
    32 <= ch as u32 && (ch as u32) <= 126
}

/// The answer a gestalt query receives: the version number, whether an input
/// character or keycode is accepted, and how an output character is shown.
/// Only unicode and unicode normalization capabilities are advertised beyond
/// character handling.
pub open spec fn gestalt_answer(gestalt: Gestalt) -> GestaltResult {
    match gestalt {
        Gestalt::Version => GestaltResult::Version(0x00000705),
        Gestalt::LineInput(ch) => GestaltResult::CanAccept(is_glk_char(ch)),
        Gestalt::CharInput(Keycode::Basic(ch)) => GestaltResult::CanAccept(is_glk_char(ch)),
        Gestalt::CharInput(ch) => GestaltResult::CanAccept(Keycode::Return == ch),
        Gestalt::CharOutput(Keycode::Basic(ch)) => {
            if is_glk_char(ch) {
                GestaltResult::CharOutput(OutputType::ExactPrint)
            } else {
                GestaltResult::CharOutput(OutputType::CannotPrint(1))
            }
        },
        Gestalt::CharOutput(_) => GestaltResult::CharOutput(OutputType::CannotPrint(1)),
        Gestalt::Unicode => GestaltResult::CanAccept(true),
        Gestalt::UnicodeNorm => GestaltResult::CanAccept(true),
        _ => GestaltResult::CanAccept(false),
    }
}

} // verus!
