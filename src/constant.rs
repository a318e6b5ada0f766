//! Names of the Windows platforms that builds exist for.

use vstd::prelude::*;

verus! {

/// A Windows platform by pointer width.
#[derive(Clone, Copy, Debug, PartialEq, Eq, Structural)]
pub enum System {
    Win32,
    Win64,
}

} // verus!
