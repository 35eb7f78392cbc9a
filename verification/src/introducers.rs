//! Control sequence and other introducers.

use vstd::prelude::*;
use crate::escape::{escape, EscapeSequence};

verus! {

/// # Escape
///
/// ESC is used for code extension purposes. It causes the meanings of a limited number of bit
/// combinations following it in the data stream to be changed.
pub const ESC: char = '\x1B';

/// Control sequence introducer
#[allow(non_snake_case)]
pub fn CSI() -> (sequence: EscapeSequence)
    ensures
        sequence@ == '[',
{
    escape('[')
}

/// Single character introducer
#[allow(non_snake_case)]
pub fn SCI() -> (sequence: EscapeSequence)
    ensures
        sequence@ == 'Z',
{
    escape('Z')
}

} // verus!
