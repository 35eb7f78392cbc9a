//! Qualify and delimit areas.

use vstd::prelude::*;
use crate::control::ControlSequence;
use crate::decimal::{digits, render};
use crate::escape::{escape, EscapeSequence};

verus! {

/// # DAQ - Define area qualification
///
/// DAQ is used to indicate that the active presentation position in the presentation component is the first
/// character position of a qualified area. The last character position of the qualified area is the character
/// position in the presentation component immediately preceding the first character position of the
/// following qualified area.
///
/// This control function operates independently of the setting of the TABULATION STOP MODE (TSM).
/// The character tabulation stop set by parameter value 7 applies to the active line only
///
/// ### Note
/// The control functions for area definition (DAQ, EPA, ESA, SPA, SSA) should not be used within an SRS
/// string or an SDS string.
pub fn area_qualification(qualification: Qualification) -> (sequence: ControlSequence)
    ensures
        sequence@.parameters == seq![digits(qualification.code())],
        sequence@.final_bytes == seq!['o'],
{
    proof {
        reveal_strlit("o");
    }
    ControlSequence::new(&[&qualification.to_string()], "o")
}

#[derive(Copy, Clone, Debug)]
pub enum Qualification {
    UnprotectNoGuard,
    ProtectGuard,
    Character,
    Numeric,
    Alphabet,
    AlignLast,
    FillZero,
    SetTabStop,
    Protect,
    FillSpace,
    AlignFirst,
    Reverse,
}

impl Qualification {
    /// The parameter value that the standard assigns to each variant.
    pub open spec fn code(&self) -> nat {
        match self {
            Self::UnprotectNoGuard => 0,
            Self::ProtectGuard => 1,
            Self::Character => 2,
            Self::Numeric => 3,
            Self::Alphabet => 4,
            Self::AlignLast => 5,
            Self::FillZero => 6,
            Self::SetTabStop => 7,
            Self::Protect => 8,
            Self::FillSpace => 9,
            Self::AlignFirst => 10,
            Self::Reverse => 11,
        }
    }

    /// The parameter text: the code of the variant in decimal.
    pub fn to_string(&self) -> (text: String)
        ensures
            text@ == digits(self.code()),
    {
        let code: usize = match self {
            Self::UnprotectNoGuard => 0,
            Self::ProtectGuard => 1,
            Self::Character => 2,
            Self::Numeric => 3,
            Self::Alphabet => 4,
            Self::AlignLast => 5,
            Self::FillZero => 6,
            Self::SetTabStop => 7,
            Self::Protect => 8,
            Self::FillSpace => 9,
            Self::AlignFirst => 10,
            Self::Reverse => 11,
        };
        render(code)
    }

    /// No two variants share a code.
    pub proof fn lemma_codes_distinct(a: Self, b: Self)
        requires
            a != b,
        ensures
            a.code() != b.code(),
    {
    }
}

/// # Start of selected area
///
/// SSA is used to indicate that the active presentation position is the first of a string of character positions
/// in the presentation component, the contents of which are eligible to be transmitted in the form of a data
/// stream or transferred to an auxiliary input/output device.
///
/// The end of this string is indicated by END OF SELECTED AREA (ESA). The string of characters
/// actually transmitted or transferred depends on the setting of the GUARDED AREA TRANSFER MODE
/// (GATM) and on any guarded areas established by DEFINE AREA QUALIFICATION (DAQ), or by
/// START OF GUARDED AREA (SPA) and END OF GUARDED AREA (EPA).
///
/// ### Note
///
/// The control functions for area definition (DAQ, EPA, ESA, SPA, SSA) should not be used within an SRS
/// string or an SDS string.
#[allow(non_snake_case)]
pub fn SSA() -> (sequence: EscapeSequence)
    ensures
        sequence@ == 'F',
{
    escape('F')
}

/// # End of selected area
///
/// ESA is used to indicate that the active presentation position is the last of a string of character positions
/// in the presentation component, the contents of which are eligible to be transmitted in the form of a data
/// stream or transferred to an auxiliary input/output device. The beginning of this string is indicated by
/// START OF SELECTED AREA (SSA).
///
/// ### Note
///
/// The control function for area definition (DAQ, EPA, ESA, SPA, SSA) should not be used within an SRS
/// string or an SDS string.
#[allow(non_snake_case)]
pub fn ESA() -> (sequence: EscapeSequence)
    ensures
        sequence@ == 'G',
{
    escape('G')
}

/// Start of protected area
#[allow(non_snake_case)]
pub fn SPA() -> (sequence: EscapeSequence)
    ensures
        sequence@ == 'V',
{
    escape('V')
}

/// End of protected area
#[allow(non_snake_case)]
pub fn EPA() -> (sequence: EscapeSequence)
    ensures
        sequence@ == 'W',
{
    escape('W')
}

/// # DAQ - Define area qualification
///
/// The same control function as [area_qualification], under its other name.
pub fn define_qualification(qualification: Qualification) -> (sequence: ControlSequence)
    ensures
        sequence@.parameters == seq![digits(qualification.code())],
        sequence@.final_bytes == seq!['o'],
{
    area_qualification(qualification)
}

} // verus!
