//! Verbosity configuration accepted by the logger.

use vstd::prelude::*;

verus! {

/// Diagnostic-detail setting. The logger stores it; it does not currently
/// affect which lines are written.
#[derive(Clone, Copy, PartialEq, Eq, Structural)]
pub struct Verbose {
    pub level: u32,
}

} // verus!
