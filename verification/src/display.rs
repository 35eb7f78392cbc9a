//! This module provides control function that change the display.

use vstd::prelude::*;
use crate::control::ControlSequence;
use crate::decimal::{digits, render};

verus! {

/// # PP - Preceding page
///
/// PP causes the n-th preceding page in the presentation component to be displayed, where n equals the
/// value of `n`. The effect of this control function on the active presentation position is not defined by this
/// Standard.
pub fn previous_page(n: usize) -> (sequence: ControlSequence)
    ensures
        sequence@.parameters == seq![digits(n as nat)],
        sequence@.final_bytes == seq!['V'],
{
    proof {
        reveal_strlit("V");
    }
    ControlSequence::new(&[&render(n)], "V")
}

/// # NP - Next page
///
/// NP causes the n-th following page in the presentation component to be displayed, where n equals the
/// value of `n`. The effect of this control function on the active presentation position is not defined by this Standard.
pub fn next_page(n: usize) -> (sequence: ControlSequence)
    ensures
        sequence@.parameters == seq![digits(n as nat)],
        sequence@.final_bytes == seq!['U'],
{
    proof {
        reveal_strlit("U");
    }
    ControlSequence::new(&[&render(n)], "U")
}

/// Use this function to call the control functions `SD`, `SL`, `ST` and `SR`.
pub fn scroll(n: usize, scroll_direction: ScrollDirection) -> (sequence: ControlSequence)
    ensures
        sequence@.parameters == seq![digits(n as nat)],
        sequence@.final_bytes == scroll_direction.final_bytes(),
{
    ControlSequence::new(&[&render(n)], &scroll_direction.to_string())
}

#[derive(Copy, Clone, Debug)]
pub enum ScrollDirection {
    /// # SD - Scroll down
    ///
    /// SD causes the data in the presentation component to be moved by n line positions if the line orientation
    /// is horizontal, or by `n` character positions if the line orientation is vertical, such that the data appear to
    /// move down.
    ///
    /// The active presentation position is not affected by this control function.
    Down,

    /// # SL - Scroll left
    ///
    /// SL causes the data in the presentation component to be moved by n character positions if the line
    /// orientation is horizontal, or by `n` line positions if the line orientation is vertical, such that the data appear
    /// to move to the left.
    ///
    /// The active presentation position is not affected by this control function.
    Left,

    /// # SR - Scroll right
    ///
    /// SR causes the data in the presentation component to be moved by n character positions if the line
    /// orientation is horizontal, or by `n` line positions if the line orientation is vertical, such that the data appear
    /// to move to the right.
    ///
    /// The active presentation position is not affected by this control function.
    Right,

    /// # SU - Scroll up
    ///
    /// SU causes the data in the presentation component to be moved by n line positions if the line orientation
    /// is horizontal, or by `n` character positions if the line orientation is vertical, such that the data appear to
    /// move up.
    ///
    /// The active presentation position is not affected by this control function.
    Up,
}

impl ScrollDirection {
    /// The final bytes of the control function that each variant stands for.
    pub open spec fn final_bytes(&self) -> Seq<char> {
        match self {
            Self::Down => seq!['T'],
            Self::Left => seq![' ', '@'],
            Self::Right => seq![' ', 'A'],
            Self::Up => seq!['S'],
        }
    }

    /// The final bytes as text.
    pub fn to_string(&self) -> (text: String)
        ensures
            text@ == self.final_bytes(),
    {
        proof {
            reveal_strlit("T");
            reveal_strlit(" @");
            reveal_strlit(" A");
            reveal_strlit("S");
        }
        let text = match self {
            Self::Down => "T",
            Self::Left => " @",
            Self::Right => " A",
            Self::Up => "S",
        };
        text.to_owned()
    }

    /// No two variants share their final bytes.
    pub proof fn lemma_final_bytes_distinct(a: Self, b: Self)
        requires
            a != b,
        ensures
            a.final_bytes() != b.final_bytes(),
    {
        assert(a.final_bytes().last() != b.final_bytes().last());
    }
}

} // verus!
