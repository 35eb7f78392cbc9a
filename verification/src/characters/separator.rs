//! Information separators.

use vstd::prelude::*;

verus! {

/// Unit separator
pub const US: char = '\x1F';

/// Record separator
pub const RS: char = '\x1E';

/// Group separator
pub const GS: char = '\x1D';

/// File separator
pub const FS: char = '\x1C';

} // verus!
