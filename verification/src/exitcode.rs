//! Process exit codes (BSD `sysexits.h`).

use vstd::prelude::*;

verus! {

pub const OK: i32 = 0;

/// The command was used incorrectly.
pub const USAGE: i32 = 64;

/// The input data was incorrect.
pub const DATAERR: i32 = 65;

/// A service is unavailable.
pub const UNAVAILABLE: i32 = 69;

/// An internal software error.
pub const SOFTWARE: i32 = 70;

/// An operating-system error.
pub const OSERR: i32 = 71;

} // verus!
