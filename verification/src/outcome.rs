use vstd::prelude::*;

verus! {

/// `chrono::TimeDelta` (also named `chrono::Duration`): a span of time. The
/// library only carries such a value from an attempt to its caller and never
/// looks inside it.
#[verifier::external_type_specification]
#[verifier::external_body]
pub struct ExTimeDelta(chrono::TimeDelta);

/// What one finished request attempt reports: it went through, with the time
/// it took, or the service asked for less load.
#[derive(Debug, PartialEq)]
pub enum RunResult {
    Success(chrono::Duration),
    SlowDown,
}

/// The feedback signal that the rate controller reacts to.
#[derive(Clone, Copy, Debug, PartialEq, Eq, Structural)]
pub enum Outcome {
    Success,
    Overloaded,
}

impl RunResult {
    /// The feedback signal carried by a report.
    pub open spec fn spec_outcome(self) -> Outcome {
        match self {
            RunResult::Success(_) => Outcome::Success,
            RunResult::SlowDown => Outcome::Overloaded,
        }
    }

    /// The feedback signal carried by a report: `SlowDown` is the soft
    /// overload signal, anything else a success.
    pub fn outcome(&self) -> (signal: Outcome)
        ensures
            signal == self.spec_outcome(),
    {
        match self {
            RunResult::Success(_) => Outcome::Success,
            RunResult::SlowDown => Outcome::Overloaded,
        }
    }
}

/// How the completion of an attempt reads: `Some` feedback signal when the
/// attempt finished, `None` when it failed at the transport layer.
pub open spec fn spec_classify<E>(result: Result<RunResult, E>) -> Option<Outcome> {
    match result {
        Result::Ok(report) => Some(report.spec_outcome()),
        Result::Err(_) => None,
    }
}

/// Reads the completion of an attempt. A transport failure is no feedback
/// signal: it yields `None`, whatever the error holds.
pub fn classify<E>(result: &Result<RunResult, E>) -> (signal: Option<Outcome>)
    ensures
        signal == spec_classify(*result),
{
    match result {
        Result::Ok(report) => Some(report.outcome()),
        Result::Err(_) => None,
    }
}

} // verus!
