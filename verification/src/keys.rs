//! Keys, modifier classes and the brackets that are typed in pairs.

use vstd::prelude::*;

verus! {

/// The modifier class of a key press. Shift is not a class of its own.
#[derive(Clone, Copy, PartialEq, Eq, Structural)]
pub enum Mods {
    /// No modifiers.
    Plain,
    /// Control
    Ctrl,
    /// Alt
    Alt,
    /// Control + Alt
    CtrlAlt,
}

impl Mods {
    /// The class of a key press with or without Alt and Control.
    pub open spec fn class(has_alt: bool, has_ctrl: bool) -> Mods {
        if has_alt {
            if has_ctrl {
                Mods::CtrlAlt
            } else {
                Mods::Alt
            }
        } else if has_ctrl {
            Mods::Ctrl
        } else {
            Mods::Plain
        }
    }

    /// The class of a key press with or without Alt and Control.
    pub fn to_mods(has_alt: bool, has_ctrl: bool) -> (m: Mods)
        ensures
            m == Mods::class(has_alt, has_ctrl),
    {
        if has_alt {
            if has_ctrl {
                Mods::CtrlAlt
            } else {
                Mods::Alt
            }
        } else if has_ctrl {
            Mods::Ctrl
        } else {
            Mods::Plain
        }
    }
}

/// A key, as far as the editor tells keys apart.
#[derive(Clone, Copy, PartialEq, Eq, Structural)]
pub enum Key {
    Esc,
    Backspace,
    Delete,
    Enter,
    BackTab,
    Tab,
    Left,
    Right,
    Up,
    Down,
    Home,
    End,
    /// A character key.
    Char(char),
    /// Any other key.
    Other,
}

/// The bracket that closes `ch`; any other character as it is.
pub open spec fn matching_brace(ch: char) -> char {
    if ch == '[' {
        ']'
    } else if ch == '{' {
        '}'
    } else if ch == '(' {
        ')'
    } else {
        ch
    }
}

/// Whether `ch` is a closing bracket.
pub open spec fn close_bracket(ch: char) -> bool {
    ch == ')' || ch == ']' || ch == '}'
}

/// Whether `ch` is an opening bracket.
pub open spec fn open_bracket(ch: char) -> bool {
    ch == '(' || ch == '[' || ch == '{'
}

/// The bracket that closes `ch`; any other character as it is.
pub fn get_matching_brace(ch: char) -> (c: char)
    ensures
        c == matching_brace(ch),
{
    if ch == '[' {
        ']'
    } else if ch == '{' {
        '}'
    } else if ch == '(' {
        ')'
    } else {
        ch
    }
}

/// Whether `ch` is a closing bracket.
pub fn is_close_bracket(ch: char) -> (b: bool)
    ensures
        b == close_bracket(ch),
{
    ch == ')' || ch == ']' || ch == '}'
}

/// Whether `ch` is an opening bracket.
pub fn is_open_bracket(ch: char) -> (b: bool)
    ensures
        b == open_bracket(ch),
{
    ch == '(' || ch == '[' || ch == '{'
}

} // verus!
