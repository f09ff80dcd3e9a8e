//! The keys the form reacts to.

use vstd::prelude::*;

verus! {

/// One key press, reduced to what the screens tell apart.
#[derive(Clone, Copy, PartialEq, Eq, Debug, Structural)]
pub enum Key {
    /// A printable character.
    Char(char),
    Backspace,
    Enter,
    Left,
    Right,
    Esc,
    /// Any key that no screen reacts to.
    Other,
}

/// The characters a coefficient field accepts: decimal digits, the minus sign and the point.
pub open spec fn is_field_char(c: char) -> bool {
    ('0' <= c && c <= '9') || c == '-' || c == '.'
}

/// The characters that quit from any screen.
pub open spec fn is_quit_char(c: char) -> bool {
    c == 'q' || c == 'Q'
}

impl Key {
    /// Whether this key quits.
    pub open spec fn quits(self) -> bool {
        self matches Key::Char(c) && is_quit_char(c)
    }
}

/// Tells whether a coefficient field accepts the character.
pub fn accepts_char(c: char) -> (r: bool)
    ensures
        r == is_field_char(c),
{
    ('0' <= c && c <= '9') || c == '-' || c == '.'
}

/// Tells whether the character quits.
pub fn quits_on(c: char) -> (r: bool)
    ensures
        r == is_quit_char(c),
{
    c == 'q' || c == 'Q'
}

} // verus!
