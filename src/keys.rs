use vstd::prelude::*;

verus! {

/// One key press, as the pages and widgets see it.
#[derive(PartialEq, Eq, Structural, Clone, Copy, Debug)]
pub enum Key {
    Char(char),
    Enter,
    Backspace,
    Left,
    Right,
    Up,
    Down,
    Esc,
    Other,
}

/// Which component owns the keyboard in a session.
#[derive(PartialEq, Eq, Structural, Clone, Copy, Debug)]
pub enum Mode {
    /// Keys switch tabs, toggle options, or leave the session.
    Command,
    /// Keys edit the outgoing message.
    Input,
}

/// The top-level pages of the application.
#[derive(PartialEq, Eq, Structural, Clone, Copy, Debug)]
pub enum Page {
    /// Port and line-settings selection.
    Index,
    /// A session on the open port.
    Main,
    /// The application ends.
    Exit,
}

/// The digit that `c` stands for, if it is one of `0` to `9`.
pub open spec fn digit_of(c: char) -> Option<nat> {
    if '0' <= c && c <= '9' {
        Some((c as u32 - '0' as u32) as nat)
    } else {
        None
    }
}

/// The digit that `c` stands for, if it is one of `0` to `9`.
pub fn digit_value(c: char) -> (r: Option<usize>)
    ensures
        match digit_of(c) {
            Some(d) => r == Some(d as usize),
            None => r is None,
        },
{
    if '0' <= c && c <= '9' {
        Some((c as u32 - '0' as u32) as usize)
    } else {
        None
    }
}

} // verus!
