//! Process exit codes of the command-line modes.
use vstd::prelude::*;

verus! {

/// The mode finished its work.
pub const SUCCESS: i32 = 0;

/// The user cancelled (for example, left a merge unresolved).
pub const CANCELED: i32 = 1;

/// The mode failed.
pub const ERROR: i32 = 2;

} // verus!
