use crate::config::ConfigError;
use crate::outcome::Outcome;
use crate::pool::PoolError;
use vstd::prelude::*;

verus! {

/// The kinds of trouble that a run can meet.
#[derive(Clone, Copy, Debug, PartialEq, Eq, Structural)]
pub enum Fault {
    /// The service asked for less load. A signal to the rate controller, no error.
    SoftOverload,
    /// One attempt failed at the network or protocol layer.
    Transport,
    /// A client handle could not be set up.
    Setup,
    /// The configuration is not an accepted one.
    Configuration,
    /// A client handle could not be torn down.
    Teardown,
}

impl Fault {
    /// Only trouble at startup ends the run: a setup or a configuration
    /// fault. Everything that happens to a single attempt, and trouble at
    /// teardown, is counted or reported and the run goes on.
    pub open spec fn spec_is_fatal(self) -> bool {
        self == Fault::Setup || self == Fault::Configuration
    }

    /// Whether the fault ends the run.
    pub fn is_fatal(&self) -> (fatal: bool)
        ensures
            fatal == self.spec_is_fatal(),
    {
        match self {
            Fault::Setup => true,
            Fault::Configuration => true,
            _ => false,
        }
    }
}

/// The fault behind the completion of an attempt: none for a success, the
/// soft overload for an overload signal, a transport fault where the attempt
/// brought no signal at all.
pub open spec fn spec_fault_of(signal: Option<Outcome>) -> Option<Fault> {
    match signal {
        Some(Outcome::Success) => None,
        Some(Outcome::Overloaded) => Some(Fault::SoftOverload),
        None => Some(Fault::Transport),
    }
}

/// The fault behind the completion of an attempt. It is never a fatal one.
pub fn fault_of(signal: Option<Outcome>) -> (fault: Option<Fault>)
    ensures
        fault == spec_fault_of(signal),
        fault matches Some(kind) ==> !kind.spec_is_fatal(),
{
    match signal {
        Some(Outcome::Success) => None,
        Some(Outcome::Overloaded) => Some(Fault::SoftOverload),
        None => Some(Fault::Transport),
    }
}

impl ConfigError {
    /// Every defect of a configuration is a configuration fault, and fatal.
    pub fn fault(&self) -> (fault: Fault)
        ensures
            fault == Fault::Configuration,
            fault.spec_is_fatal(),
    {
        Fault::Configuration
    }
}

impl PoolError {
    /// A pool asked for without clients is a configuration fault, one that
    /// setup left incomplete a setup fault.
    pub open spec fn spec_fault(self) -> Fault {
        match self {
            PoolError::NoClients => Fault::Configuration,
            PoolError::SetupIncomplete => Fault::Setup,
        }
    }

    /// The kind of fault that kept the pool from being built. Either is fatal.
    pub fn fault(&self) -> (fault: Fault)
        ensures
            fault == self.spec_fault(),
            fault.spec_is_fatal(),
    {
        match self {
            PoolError::NoClients => Fault::Configuration,
            PoolError::SetupIncomplete => Fault::Setup,
        }
    }
}

} // verus!
