//! Escape functions: `ESC` followed by one identifying character.
//!
//! This module also provides the escape functions that are not sorted elsewhere.

use vstd::prelude::*;
use crate::introducers::ESC;

verus! {

/// A two-character escape function: `ESC` and the character that identifies the function.
///
/// ```
/// use coded_chars::escape::escape;
///
/// assert_eq!(escape('E').to_string(), "\x1bE");
/// ```
#[derive(Copy, Clone)]
pub struct EscapeSequence(char);

impl View for EscapeSequence {
    type V = char;

    /// The identifying character.
    closed spec fn view(&self) -> char {
        self.0
    }
}

impl EscapeSequence {
    /// The text sent for this escape function.
    pub open spec fn rendered(&self) -> Seq<char> {
        seq![ESC, self@]
    }

    /// The escape function that `with` identifies. Any character is taken as it is.
    pub fn new(with: char) -> (sequence: Self)
        ensures
            sequence@ == with,
    {
        Self(with)
    }

    /// Renders the escape function: `ESC`, then the identifying character.
    pub fn to_string(&self) -> (text: String)
        ensures
            text@ == self.rendered(),
    {
        let mut text = String::new();
        text.push(ESC);
        text.push(self.0);
        text
    }
}

/// The escape function that `c` identifies.
pub fn escape(c: char) -> (sequence: EscapeSequence)
    ensures
        sequence@ == c,
{
    EscapeSequence::new(c)
}

/// Whatever character an escape function is built from, its text is exactly two characters:
/// `ESC`, then that character.
pub proof fn lemma_escape_rendered(sequence: EscapeSequence, c: char)
    requires
        sequence@ == c,
    ensures
        sequence.rendered() == seq![ESC, c],
        sequence.rendered().len() == 2,
        sequence.rendered()[0] == '\x1B',
        sequence.rendered()[1] == c,
{
}

/// Padding character
#[allow(non_snake_case)]
pub fn PAD() -> (sequence: EscapeSequence)
    ensures
        sequence@ == '@',
{
    escape('@')
}

/// High octet preset
#[allow(non_snake_case)]
pub fn HOP() -> (sequence: EscapeSequence)
    ensures
        sequence@ == 'A',
{
    escape('A')
}

/// Index
#[allow(non_snake_case)]
pub fn IND() -> (sequence: EscapeSequence)
    ensures
        sequence@ == 'D',
{
    escape('D')
}

/// Private use 1
#[allow(non_snake_case)]
pub fn PU1() -> (sequence: EscapeSequence)
    ensures
        sequence@ == 'Q',
{
    escape('Q')
}

/// Private use 2
#[allow(non_snake_case)]
pub fn PU2() -> (sequence: EscapeSequence)
    ensures
        sequence@ == 'R',
{
    escape('R')
}

/// Set transmit state
#[allow(non_snake_case)]
pub fn STS() -> (sequence: EscapeSequence)
    ensures
        sequence@ == 'S',
{
    escape('S')
}

/// Cancel character
#[allow(non_snake_case)]
pub fn CCH() -> (sequence: EscapeSequence)
    ensures
        sequence@ == 'T',
{
    escape('T')
}

/// Message waiting
#[allow(non_snake_case)]
pub fn MW() -> (sequence: EscapeSequence)
    ensures
        sequence@ == 'U',
{
    escape('U')
}

/// Single graphic character introducer
#[allow(non_snake_case)]
pub fn SGC() -> (sequence: EscapeSequence)
    ensures
        sequence@ == 'Y',
{
    escape('Y')
}
} // verus!
