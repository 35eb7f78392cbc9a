//! All 7-bits and 8-bits shifts.

use vstd::prelude::*;
use crate::escape::{escape, EscapeSequence};

verus! {

/// # Shift in
///
/// SI is used for code extension purposes. It causes the meanings of the bit combinations following it in the
/// data stream to be changed.
/// The use of SI is defined in Standard ECMA-35.
///
/// ### Note
///
/// SI is used in 7-bit environments only; in 8-bit environments LOCKING-SHIFT ZERO (LS0) is used
/// instead.
pub const SI: char = '\x0F';

pub const LS0: char = SI;

/// # Shift out
///
/// SO is used for code extension purposes. It causes the meanings of the bit combinations following it in
/// the data stream to be changed.
/// The use of SO is defined in Standard ECMA-35.
///
/// ### Note
///
/// SO is used in 7-bit environments only; in 8-bit environments LOCKING-SHIFT ONE (LS1) is used
/// instead.
pub const SO: char = '\x0E';

pub const LS1: char = SO;

/// Locking-shift 1R
#[allow(non_snake_case)]
pub fn LS1R() -> (sequence: EscapeSequence)
    ensures
        sequence@ == '~',
{
    escape('~')
}

/// Locking-shift 2
#[allow(non_snake_case)]
pub fn LS2() -> (sequence: EscapeSequence)
    ensures
        sequence@ == 'n',
{
    escape('n')
}

/// Locking-shift 2R
#[allow(non_snake_case)]
pub fn LS2R() -> (sequence: EscapeSequence)
    ensures
        sequence@ == '}',
{
    escape('}')
}

/// Locking-shift 3
#[allow(non_snake_case)]
pub fn LS3() -> (sequence: EscapeSequence)
    ensures
        sequence@ == 'o',
{
    escape('o')
}

/// Locking-shift 3R
#[allow(non_snake_case)]
pub fn LS3R() -> (sequence: EscapeSequence)
    ensures
        sequence@ == '|',
{
    escape('|')
}

/// Single shift 2
#[allow(non_snake_case)]
pub fn SS2() -> (sequence: EscapeSequence)
    ensures
        sequence@ == 'N',
{
    escape('N')
}

/// Single shift 3
#[allow(non_snake_case)]
pub fn SS3() -> (sequence: EscapeSequence)
    ensures
        sequence@ == 'O',
{
    escape('O')
}

} // verus!
