//! Various delimiters.

use vstd::prelude::*;
use crate::escape::{escape, EscapeSequence};

verus! {

/// Application program command
#[allow(non_snake_case)]
pub fn APC() -> (sequence: EscapeSequence)
    ensures
        sequence@ == '_',
{
    escape('_')
}

/// Coding method delimiter
#[allow(non_snake_case)]
pub fn CMD() -> (sequence: EscapeSequence)
    ensures
        sequence@ == 'd',
{
    escape('d')
}

/// Device control string
#[allow(non_snake_case)]
pub fn DCS() -> (sequence: EscapeSequence)
    ensures
        sequence@ == 'P',
{
    escape('P')
}

/// Operating system command
#[allow(non_snake_case)]
pub fn OSC() -> (sequence: EscapeSequence)
    ensures
        sequence@ == ']',
{
    escape(']')
}

/// Private message
#[allow(non_snake_case)]
pub fn PM() -> (sequence: EscapeSequence)
    ensures
        sequence@ == '^',
{
    escape('^')
}

/// Start of string
#[allow(non_snake_case)]
pub fn SOS() -> (sequence: EscapeSequence)
    ensures
        sequence@ == 'X',
{
    escape('X')
}

/// String terminator
#[allow(non_snake_case)]
pub fn ST() -> (sequence: EscapeSequence)
    ensures
        sequence@ == '\\',
{
    escape('\\')
}

} // verus!
