//! These control functions change the format.

use vstd::prelude::*;
use crate::control::ControlSequence;
use crate::decimal::{digits, render};
use crate::escape::{escape, EscapeSequence};

verus! {

/// # Backspace
///
/// BS causes the active data position to be moved one character position in the data component in the
/// direction opposite to that of the implicit movement.
///
/// The direction of the implicit movement depends on the parameter value of SELECT IMPLICIT
/// MOVEMENT DIRECTION (SIMD).
pub const BS: char = '\x08';

/// # Horizontal tabulation
///
/// HT causes the active presentation position to be moved to the following character tabulation stop in the
/// presentation component.
///
/// In addition, if that following character tabulation stop has been set by TABULATION ALIGN CENTRE
/// (TAC), TABULATION ALIGN LEADING EDGE (TALE), TABULATION ALIGN TRAILING EDGE
/// (TATE) or TABULATION CENTRED ON CHARACTER (TCC), HT indicates the beginning of a string
/// of text which is to be positioned within a line according to the properties of that tabulation stop. The end
/// of the string is indicated by the next occurrence of HT or CARRIAGE RETURN (CR) or NEXT LINE
/// (NEL) in the data stream.
pub const HT: char = '\x09';

/// # Line feed
///
/// If the DEVICE COMPONENT SELECT MODE (DCSM) is set to PRESENTATION, LF causes the
/// active presentation position to be moved to the corresponding character position of the following line in
/// the presentation component.
///
/// If the DEVICE COMPONENT SELECT MODE (DCSM) is set to DATA, LF causes the active data
/// position to be moved to the corresponding character position of the following line in the data
/// component
pub const LF: char = '\x0A';

/// # Vertical tabulation
///
/// VT causes the active presentation position to be moved in the presentation component to the
/// corresponding character position on the line at which the following line tabulation stop is set.
pub const VT: char = '\x0B';

/// # Form feed
///
/// FF causes the active presentation position to be moved to the corresponding character position of the
/// line at the page home position of the next form or page in the presentation component. The page home
/// position is established by the parameter value of SET PAGE HOME (SPH).
pub const FF: char = '\x0C';

/// # Carriage return
///
/// The effect of CR depends on the setting of the DEVICE COMPONENT SELECT MODE (DCSM) and
/// on the parameter value of SELECT IMPLICIT MOVEMENT DIRECTION (SIMD).
///
/// If the DEVICE COMPONENT SELECT MODE (DCSM) is set to PRESENTATION and with the
/// parameter value of SIMD equal to 0, CR causes the active presentation position to be moved to the line
/// home position of the same line in the presentation component. The line home position is established by
/// the parameter value of SET LINE HOME (SLH).
///
/// With a parameter value of SIMD equal to 1, CR causes the active presentation position to be moved to
/// the line limit position of the same line in the presentation component. The line limit position is
/// established by the parameter value of SET LINE LIMIT (SLL).
///
/// If the DEVICE COMPONENT SELECT MODE (DCSM) is set to DATA and with a parameter value of
/// SIMD equal to 0, CR causes the active data position to be moved to the line home position of the same
/// line in the data component. The line home position is established by the parameter value of SET LINE
/// HOME (SLH).
///
/// With a parameter value of SIMD equal to 1, CR causes the active data position to be moved to the line
/// limit position of the same line in the data component. The line limit position is established by the
/// parameter value of SET LINE LIMIT (SLL).
pub const CR: char = '\x0D';

/// # Character tabulation with justification
///
/// HTJ causes the contents of the active field (the field in the presentation component that contains the
/// active presentation position) to be shifted forward so that it ends at the character position preceding the
/// following character tabulation stop. The active presentation position is moved to that following character
/// tabulation stop. The character positions which precede the beginning of the shifted string are put into the
/// erased state.
#[allow(non_snake_case)]
pub fn HTJ() -> (sequence: EscapeSequence)
    ensures
        sequence@ == 'I',
{
    escape('I')
}

/// # Character tabulation set
///
/// HTS causes a character tabulation stop to be set at the active presentation position in the presentation component.
///
/// The number of lines affected depends on the setting of the TABULATION STOP MODE (TSM).
#[allow(non_snake_case)]
pub fn HTS() -> (sequence: EscapeSequence)
    ensures
        sequence@ == 'H',
{
    escape('H')
}

/// # Next line
///
/// The effect of NEL depends on the setting of the DEVICE COMPONENT SELECT MODE (DCSM) and
/// on the parameter value of SELECT IMPLICIT MOVEMENT DIRECTION (SIMD).
///
/// If the DEVICE COMPONENT SELECT MODE (DCSM) is set to PRESENTATION and with a
/// parameter value of SIMD equal to 0, NEL causes the active presentation position to be moved to the line
/// home position of the following line in the presentation component. The line home position is established
/// by the parameter value of SET LINE HOME (SLH).
///
/// With a parameter value of SIMD equal to 1, NEL causes the active presentation position to be moved to
/// the line limit position of the following line in the presentation component. The line limit position is
/// established by the parameter value of SET LINE LIMIT (SLL).
///
/// If the DEVICE COMPONENT SELECT MODE (DCSM) is set to DATA and with a parameter value of
/// SIMD equal to 0, NEL causes the active data position to be moved to the line home position of the
/// following line in the data component. The line home position is established by the parameter value of
/// SET LINE HOME (SLH).
///
/// With a parameter value of SIMD equal to 1, NEL causes the active data position to be moved to the line
/// limit position of the following line in the data component. The line limit position is established by the
/// parameter value of SET LINE LIMIT (SLL).
#[allow(non_snake_case)]
pub fn NEL() -> (sequence: EscapeSequence)
    ensures
        sequence@ == 'E',
{
    escape('E')
}

/// # Partial line forward
///
/// PLD causes the active presentation position to be moved in the presentation component to the
/// corresponding position of an imaginary line with a partial offset in the direction of the line progression.
/// This offset should be sufficient either to image following characters as subscripts until the first
/// following occurrence of PARTIAL LINE BACKWARD (PLU) in the data stream, or, if preceding
/// characters were imaged as superscripts, to restore imaging of following characters to the active line (the
/// line that contains the active presentation position).
///
/// Any interactions between PLD and format effectors other than PLU are not defined by this Standard.
#[allow(non_snake_case)]
pub fn PLD() -> (sequence: EscapeSequence)
    ensures
        sequence@ == 'K',
{
    escape('K')
}

/// # Partial line backward
///
/// PLU causes the active presentation position to be moved in the presentation component to the
/// corresponding position of an imaginary line with a partial offset in the direction opposite to that of the
/// line progression. This offset should be sufficient either to image following characters as superscripts
/// until the first following occurrence of PARTIAL LINE FORWARD (PLD) in the data stream, or, if
/// preceding characters were imaged as subscripts, to restore imaging of following characters to the active
/// line (the line that contains the active presentation position).
///
/// Any interactions between PLU and format effectors other than PLD are not defined by this Standard.
#[allow(non_snake_case)]
pub fn PLU() -> (sequence: EscapeSequence)
    ensures
        sequence@ == 'L',
{
    escape('L')
}

/// Reserve line feed
#[allow(non_snake_case)]
pub fn RI() -> (sequence: EscapeSequence)
    ensures
        sequence@ == 'M',
{
    escape('M')
}

/// # Line tabulation set
///
/// VTS causes a line tabulation stop to be set at the active line (the line that contains the active presentation position).
#[allow(non_snake_case)]
pub fn VTS() -> (sequence: EscapeSequence)
    ensures
        sequence@ == 'J',
{
    escape('J')
}

/// # HPA - Character position absolute
///
/// HPA causes the active data position to be moved to character position `n` in the active line (the line in the
/// data component that contains the active data position).
pub fn character_absolute(n: usize) -> (sequence: ControlSequence)
    ensures
        sequence@.parameters == seq![digits(n as nat)],
        sequence@.final_bytes == seq!['`'],
{
    proof {
        reveal_strlit("`");
    }
    ControlSequence::new(&[&render(n)], "`")
}

/// # HPB - Character position backward
///
/// HPB causes the active data position to be moved by `n` character positions in the data component in the
/// direction opposite to that of the character progression.
pub fn character_backward(n: usize) -> (sequence: ControlSequence)
    ensures
        sequence@.parameters == seq![digits(n as nat)],
        sequence@.final_bytes == seq!['j'],
{
    proof {
        reveal_strlit("j");
    }
    ControlSequence::new(&[&render(n)], "j")
}

/// # HPR - Character position forward
///
/// HPR causes the active data position to be moved by `n` character positions in the data component in the
/// direction of the character progression.
pub fn character_forward(n: usize) -> (sequence: ControlSequence)
    ensures
        sequence@.parameters == seq![digits(n as nat)],
        sequence@.final_bytes == seq!['a'],
{
    proof {
        reveal_strlit("a");
    }
    ControlSequence::new(&[&render(n)], "a")
}

/// # HVP - Character and line position
///
/// HVP causes the active data position to be moved in the data component to the `l`-th line position
/// according to the line progression and to the `c`-th character position according to the character
/// progression.
pub fn character_and_line_position(l: usize, c: usize) -> (sequence: ControlSequence)
    ensures
        sequence@.parameters == seq![digits(l as nat), digits(c as nat)],
        sequence@.final_bytes == seq!['f'],
{
    proof {
        reveal_strlit("f");
    }
    ControlSequence::new(&[&render(l), &render(c)], "f")
}

/// # PPA - Page position absolute
///
/// PPA causes the active data position to be moved in the data component to the corresponding character
/// position on the `n`-th page.
pub fn page_position(n: usize) -> (sequence: ControlSequence)
    ensures
        sequence@.parameters == seq![digits(n as nat)],
        sequence@.final_bytes == seq![' ', 'P'],
{
    proof {
        reveal_strlit(" P");
    }
    ControlSequence::new(&[&render(n)], " P")
}

/// # PPB - Page position backward
///
/// PPB causes the active data position to be moved in the data component to the corresponding character
/// position on the `n`-th preceding page.
pub fn page_backward(n: usize) -> (sequence: ControlSequence)
    ensures
        sequence@.parameters == seq![digits(n as nat)],
        sequence@.final_bytes == seq![' ', 'R'],
{
    proof {
        reveal_strlit(" R");
    }
    ControlSequence::new(&[&render(n)], " R")
}

/// # PPR - Page position forward
///
/// PPR causes the active data position to be moved in the data component to the corresponding character
/// position on the `n`-th following page.
pub fn page_forward(n: usize) -> (sequence: ControlSequence)
    ensures
        sequence@.parameters == seq![digits(n as nat)],
        sequence@.final_bytes == seq![' ', 'Q'],
{
    proof {
        reveal_strlit(" Q");
    }
    ControlSequence::new(&[&render(n)], " Q")
}

/// # TBC - Tabulation clear
///
/// TBC causes one or more tabulation stops in the presentation component to be cleared.
pub fn clear_tabulation(tabulation_control: TabulationControl) -> (sequence: ControlSequence)
    ensures
        sequence@.parameters == seq![digits(tabulation_control.code())],
        sequence@.final_bytes == seq!['g'],
{
    proof {
        reveal_strlit("g");
    }
    ControlSequence::new(&[&tabulation_control.to_string()], "g")
}

#[derive(Copy, Clone, Debug)]
pub enum TabulationControl {
    /// A character tabulation stop is set at the active presentation position.
    Character,
    /// A line tabulation stop is set at the active line (the line that contains the active presentation position).
    Line,
    /// The character tabulation stop at the active presentation position is cleared.
    CharacterRemove,
    /// The line tabulation stop at the active line is cleared.
    LineRemove,
    /// All character tabulation stops in the active line are cleared.
    CharacterClearLine,
    /// All character tabulation stops are cleared.
    CharacterClearAll,
    /// All line tabulation stops are cleared.
    LineClearAll,
}

impl TabulationControl {
    /// The parameter value that the standard assigns to each variant.
    pub open spec fn code(&self) -> nat {
        match self {
            Self::Character => 0,
            Self::Line => 1,
            Self::CharacterRemove => 2,
            Self::LineRemove => 3,
            Self::CharacterClearLine => 4,
            Self::CharacterClearAll => 5,
            Self::LineClearAll => 6,
        }
    }

    /// The parameter text: the code of the variant in decimal.
    pub fn to_string(&self) -> (text: String)
        ensures
            text@ == digits(self.code()),
    {
        let code: usize = match self {
            Self::Character => 0,
            Self::Line => 1,
            Self::CharacterRemove => 2,
            Self::LineRemove => 3,
            Self::CharacterClearLine => 4,
            Self::CharacterClearAll => 5,
            Self::LineClearAll => 6,
        };
        render(code)
    }

    /// No two variants share a code.
    pub proof fn lemma_codes_distinct(a: Self, b: Self)
        requires
            a != b,
        ensures
            a.code() != b.code(),
    {
    }
}

/// # TSR - Tabulation stop remove
///
/// TSR causes any character tabulation stop at character position n in the active line (the line that contains
/// the active presentation position) and lines of subsequent text in the presentation component to be
/// cleared, but does not affect other tabulation stops.
pub fn remove_tabulation_stop(n: usize) -> (sequence: ControlSequence)
    ensures
        sequence@.parameters == seq![digits(n as nat)],
        sequence@.final_bytes == seq![' ', 'd'],
{
    proof {
        reveal_strlit(" d");
    }
    ControlSequence::new(&[&render(n)], " d")
}

/// # VPA - Line position absolute
///
/// VPA causes the active data position to be moved to line position n in the data component in a direction
/// parallel to the line progression.
pub fn line_position(n: usize) -> (sequence: ControlSequence)
    ensures
        sequence@.parameters == seq![digits(n as nat)],
        sequence@.final_bytes == seq!['d'],
{
    proof {
        reveal_strlit("d");
    }
    ControlSequence::new(&[&render(n)], "d")
}

/// # VPB - Line position backward
///
/// VPB causes the active data position to be moved by n line positions in the data component in a direction
/// opposite to that of the line progression.
pub fn line_backward(n: usize) -> (sequence: ControlSequence)
    ensures
        sequence@.parameters == seq![digits(n as nat)],
        sequence@.final_bytes == seq!['k'],
{
    proof {
        reveal_strlit("k");
    }
    ControlSequence::new(&[&render(n)], "k")
}

/// # VPR - Line position forward
///
/// VPR causes the active data position to be moved by n line positions in the data component in a direction
/// parallel to the line progression.
pub fn line_forward(n: usize) -> (sequence: ControlSequence)
    ensures
        sequence@.parameters == seq![digits(n as nat)],
        sequence@.final_bytes == seq!['e'],
{
    proof {
        reveal_strlit("e");
    }
    ControlSequence::new(&[&render(n)], "e")
}

} // verus!
