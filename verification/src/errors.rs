//! Errors surfaced by the engine's control surface and by routing.

use vstd::prelude::*;

verus! {

/// Every failure the engine reports to a caller.
///
/// Per-packet trouble (an unroutable packet, a failed send) is absorbed into
/// the drop counters; only routing over an empty interface list and invalid
/// external commands surface as values of this type.
#[derive(Clone, Copy, Debug, PartialEq, Eq, Structural)]
pub enum EngineError {
    /// Routing was asked to pick from an empty interface list.
    NoInterfacesAvailable,
    /// `start` was called while the adapter was already running.
    AlreadyRunning,
    /// A command that needs a running adapter was issued while it was not.
    NotRunning,
    /// A policy-mode name that the engine does not recognize.
    InvalidMode,
}

impl EngineError {
    /// A human-readable description of the error.
    pub fn message(&self) -> (r: String)
        ensures
            r@ == match *self {
                EngineError::NoInterfacesAvailable => "No available interfaces for routing"@,
                EngineError::AlreadyRunning => "NetBoost is already running"@,
                EngineError::NotRunning => "NetBoost is not running"@,
                EngineError::InvalidMode => "Invalid load balancing mode"@,
            },
    {
        match *self {
            EngineError::NoInterfacesAvailable => "No available interfaces for routing".to_owned(),
            EngineError::AlreadyRunning => "NetBoost is already running".to_owned(),
            EngineError::NotRunning => "NetBoost is not running".to_owned(),
            EngineError::InvalidMode => "Invalid load balancing mode".to_owned(),
        }
    }
}

} // verus!
