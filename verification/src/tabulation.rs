//! This module provides tabulation-related control functions.
//!
//! It gathers the functions that set, clear and use tabulation stops. Each of them is
//! also found with the family it belongs to, some under a longer name: in [crate::cursor],
//! [crate::format] and [crate::presentation].

use vstd::prelude::*;
use crate::control::ControlSequence;
use crate::decimal::{digits, render};
pub use crate::format::TabulationControl;

verus! {

/// # CBT - Cursor backward tabulation
///
/// CBT causes the active presentation position to be moved to the character position corresponding to the
/// `n`-th preceding character tabulation stop in the presentation component, according to the character path.
pub fn cursor_backward(n: usize) -> (sequence: ControlSequence)
    ensures
        sequence@.parameters == seq![digits(n as nat)],
        sequence@.final_bytes == seq!['Z'],
{
    proof {
        reveal_strlit("Z");
    }
    ControlSequence::new(&[&render(n)], "Z")
}

/// # CHT - Cursor forward tabulation
///
/// CHT causes the active presentation position to be moved to the character position corresponding to the
/// `n`-th following character tabulation stop in the presentation component, according to the character path.
pub fn cursor_forward(n: usize) -> (sequence: ControlSequence)
    ensures
        sequence@.parameters == seq![digits(n as nat)],
        sequence@.final_bytes == seq!['I'],
{
    proof {
        reveal_strlit("I");
    }
    ControlSequence::new(&[&render(n)], "I")
}

/// # CTC - Cursor tabulation control
///
/// CTC causes one or more tabulation stops to be set or cleared in the presentation component.
pub fn cursor_control(tabulation_control: TabulationControl) -> (sequence: ControlSequence)
    ensures
        sequence@.parameters == seq![digits(tabulation_control.code())],
        sequence@.final_bytes == seq!['W'],
{
    proof {
        reveal_strlit("W");
    }
    ControlSequence::new(&[&tabulation_control.to_string()], "W")
}

/// # CVT - Cursor line tabulation
///
/// CVT causes the active presentation position to be moved to the corresponding character position of the
/// line corresponding to the `n`-th following line tabulation stop in the presentation component.
pub fn line_tabulation(n: usize) -> (sequence: ControlSequence)
    ensures
        sequence@.parameters == seq![digits(n as nat)],
        sequence@.final_bytes == seq!['Y'],
{
    proof {
        reveal_strlit("Y");
    }
    ControlSequence::new(&[&render(n)], "Y")
}

/// # STAB - Selective tabulation
///
/// STAB causes subsequent text in the presentation component to be aligned according to the position and
/// the properties of a tabulation stop which is selected from a list according to the value of the parameter.
///
/// The use of this control function and means of specifying a list of tabulation stops to be referenced by the
/// control function are specified in other standards, for example ISO 8613-6.
pub fn select_tabulation(n: usize) -> (sequence: ControlSequence)
    ensures
        sequence@.parameters == seq![digits(n as nat)],
        sequence@.final_bytes == seq![' ', '^'],
{
    proof {
        reveal_strlit(" ^");
    }
    ControlSequence::new(&[&render(n)], " ^")
}

/// # TAC - Tabulation aligned centred
///
/// TAC causes a character tabulation stop calling for centring to be set at character position n in the active
/// line (the line that contains the active presentation position) and lines of subsequent text in the
/// presentation component, where n equals the value of Pn. TAC causes the replacement of any tabulation
/// stop previously set at that character position, but does not affect other tabulation stops.
///
/// A text string centred upon a tabulation stop set by TAC will be positioned so that the (trailing edge of
/// the) first graphic character and the (leading edge of the) last graphic character are at approximately equal
/// distances from the tabulation stop.
pub fn align_center(n: usize) -> (sequence: ControlSequence)
    ensures
        sequence@.parameters == seq![digits(n as nat)],
        sequence@.final_bytes == seq![' ', 'b'],
{
    proof {
        reveal_strlit(" b");
    }
    ControlSequence::new(&[&render(n)], " b")
}

/// # TALE - Tabulation aligned leading edge
///
/// TALE causes a character tabulation stop calling for leading edge alignment to be set at character
/// position n in the active line (the line that contains the active presentation position) and lines of
/// subsequent text in the presentation component, where n equals the value of Pn. TALE causes the
/// replacement of any tabulation stop previously set at that character position, but does not affect other
/// tabulation stops.
///
/// A text string aligned with a tabulation stop set by TALE will be positioned so that the (leading edge of
/// the) last graphic character of the string is placed at the tabulation stop.
pub fn align_leading(n: usize) -> (sequence: ControlSequence)
    ensures
        sequence@.parameters == seq![digits(n as nat)],
        sequence@.final_bytes == seq![' ', 'a'],
{
    proof {
        reveal_strlit(" a");
    }
    ControlSequence::new(&[&render(n)], " a")
}

/// # TATE - Tabulation aligned trailing edge
///
/// TATE causes a character tabulation stop calling for trailing edge alignment to be set at character
/// position n in the active line (the line that contains the active presentation position) and lines of
/// subsequent text in the presentation component, where n equals the value of Pn. TATE causes the
/// replacement of any tabulation stop previously set at that character position, but does not affect other
/// tabulation stops.
///
/// A text string aligned with a tabulation stop set by TATE will be positioned so that the (trailing edge of
/// the) first graphic character of the string is placed at the tabulation stop.
pub fn align_trailing(n: usize) -> (sequence: ControlSequence)
    ensures
        sequence@.parameters == seq![digits(n as nat)],
        sequence@.final_bytes == seq![' ', '`'],
{
    proof {
        reveal_strlit(" `");
    }
    ControlSequence::new(&[&render(n)], " `")
}

/// # TBC - Tabulation clear
///
/// TBC causes one or more tabulation stops in the presentation component to be cleared.
pub fn clear(tabulation_control: TabulationControl) -> (sequence: ControlSequence)
    ensures
        sequence@.parameters == seq![digits(tabulation_control.code())],
        sequence@.final_bytes == seq!['g'],
{
    proof {
        reveal_strlit("g");
    }
    ControlSequence::new(&[&tabulation_control.to_string()], "g")
}

/// # TCC - Tabulation centred on character
///
/// TCC causes a character tabulation stop calling for alignment of a target graphic character to be set at
/// character position `l` in the active line (the line that contains the active presentation position) and lines of
/// subsequent text in the presentation component, and the target character
/// about which centring is to be performed is specified by `ascii`. TCC causes the replacement of any
/// tabulation stop previously set at that character position, but does not affect other tabulation stops.
///
/// The positioning of a text string aligned with a tabulation stop set by TCC will be determined by the first
/// occurrence in the string of the target graphic character; that character will be centred upon the tabulation
/// stop. If the target character does not occur within the string, then the trailing edge of the first character
/// of the string will be positioned at the tabulation stop.
///
/// The value of `ascii` indicates the code table position (binary value) of the target character in the currently
/// invoked code. For a 7-bit code, the permissible range of values is 32 to 127; for an 8-bit code, the
/// permissible range of values is 32 to 127 and 160 to 255.
pub fn center_on_char(l: usize, ascii: usize) -> (sequence: ControlSequence)
    ensures
        sequence@.parameters == seq![digits(l as nat), digits(ascii as nat)],
        sequence@.final_bytes == seq![' ', 'c'],
{
    proof {
        reveal_strlit(" c");
    }
    ControlSequence::new(&[&render(l), &render(ascii)], " c")
}

/// # TSR - Tabulation stop remove
///
/// TSR causes any character tabulation stop at character position n in the active line (the line that contains
/// the active presentation position) and lines of subsequent text in the presentation component to be
/// cleared, but does not affect other tabulation stops.
pub fn remove_stop(n: usize) -> (sequence: ControlSequence)
    ensures
        sequence@.parameters == seq![digits(n as nat)],
        sequence@.final_bytes == seq![' ', 'd'],
{
    proof {
        reveal_strlit(" d");
    }
    ControlSequence::new(&[&render(n)], " d")
}

} // verus!
