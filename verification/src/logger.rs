//! The level gate of the RTT logger. The transport that carries a record to
//! the host is an outside collaborator; the decision which records pass is
//! made here.

use vstd::prelude::*;

verus! {

/// Numeric severity of the most verbose level that is compiled in; levels
/// run from 1 (error) up to 5 (trace), and the static maximum keeps all of
/// them.
pub const MAX_LOG_LEVEL: u8 = 5;

/// Logger that prints over RTT. It carries no state; its only decision is
/// the level gate.
pub struct RttTargetLogger;

impl RttTargetLogger {
    /// Whether a record of numeric severity `level` is logged: exactly the
    /// records whose level is within the static maximum level pass.
    pub fn enabled(&self, level: u8) -> (r: bool)
        ensures
            r == (level <= MAX_LOG_LEVEL),
    {
        level <= MAX_LOG_LEVEL
    }
}

} // verus!
