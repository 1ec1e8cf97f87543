use vstd::prelude::*;

verus! {

/// The GLK name for a key the input system reports
#[derive(Debug, PartialEq, Eq, Structural)]
pub enum Keycode {
    /// A "normal" letter
    Basic(char),
    /// Arrow left
    Left,
    /// Arrow right
    Right,
    /// Arrow up
    Up,
    /// Arrow down
    Down,
    /// Return/Enter key
    Return,
    /// Delete/Backspace key
    Delete,
    /// Escape key
    Escape,
    /// Tab key
    Tab,
    /// Page up
    PageUp,
    /// Page down
    PageDown,
    /// Home
    Home,
    /// End
    End,
    /// Function keycode
    Func1,
    /// Function keycode
    Func2,
    /// Function keycode
    Func3,
    /// Function keycode
    Func4,
    /// Function keycode
    Func5,
    /// Function keycode
    Func6,
    /// Function keycode
    Func7,
    /// Function keycode
    Func8,
    /// Function keycode
    Func9,
    /// Function keycode
    Func10,
    /// Function keycode
    Func11,
    /// Function keycode
    Func12,
    /// The keycode could not be translated into something that Glk knows
    Unknown,
}

/// The Glk keycode a character translates to: printable characters map to
/// themselves, carriage return and line feed both map to the Return key, and
/// everything else is unknown.
pub open spec fn keycode_of_char(ch: char) -> Keycode {
    if 32 <= ch as u32 && (ch as u32) < 127 {
        Keycode::Basic(ch)
    } else if ch == '\r' || ch == '\n' {
        Keycode::Return
    } else {
        Keycode::Unknown
    }
}

impl From<char> for Keycode {
    fn from(ch: char) -> (r: Self)
        ensures
            r == keycode_of_char(ch),
    {
        if (ch as u32) >= 32 && (ch as u32) < 127 {
            return Keycode::Basic(ch);
        }
        if ch == '\r' || ch == '\n' {
            Keycode::Return
        } else {
            Keycode::Unknown
        }
    }
}

impl vstd::std_specs::convert::FromSpecImpl<char> for Keycode {
    open spec fn obeys_from_spec() -> bool {
        true
    }

    open spec fn from_spec(ch: char) -> Keycode {
        keycode_of_char(ch)
    }
}

} // verus!
