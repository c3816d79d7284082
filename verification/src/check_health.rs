//! The endpoint probe: what one HTTP exchange says about an endpoint.

use vstd::prelude::*;

verus! {

/// The outcome of one liveness probe.
#[derive(Debug, PartialEq, Eq)]
pub enum ProbeOutcome {
    /// The endpoint answered without an error status.
    Healthy,
    /// The endpoint failed, with a reason a person can read.
    Unhealthy { reason: String },
}

/// A probe outcome with its reason as a sequence of characters.
pub enum Verdict {
    Healthy,
    Unhealthy { reason: Seq<char> },
}

impl View for ProbeOutcome {
    type V = Verdict;

    open spec fn view(&self) -> Verdict {
        match self {
            ProbeOutcome::Healthy => Verdict::Healthy,
            ProbeOutcome::Unhealthy { reason } => Verdict::Unhealthy { reason: reason@ },
        }
    }
}

/// Where a probe stands once the head of the response is known.
#[derive(Debug, PartialEq, Eq)]
pub enum ProbeStep {
    /// The outcome is settled.
    Finished(ProbeOutcome),
    /// The status is an error: the body is to be read for the reason.
    ReadBody,
}

/// A client or server error status.
pub open spec fn is_error_status(status: u16) -> bool {
    400 <= status < 600
}

/// The outcome that the head of a response settles, if it settles one.
pub open spec fn settled_by_head(response: Result<u16, String>) -> Option<Verdict> {
    match response {
        Err(failure) => Some(Verdict::Unhealthy { reason: failure@ }),
        Ok(status) => if is_error_status(status) {
            None
        } else {
            Some(Verdict::Healthy)
        },
    }
}

/// Classifies the head of one exchange. `response` is the status code that
/// came back, or the description of the transport failure.
///
/// A transport failure is unhealthy with that description as the reason. An
/// error status asks for the body. Every other status is healthy.
pub fn get(response: Result<u16, String>) -> (step: ProbeStep)
    ensures
        match settled_by_head(response) {
            Some(verdict) => step matches ProbeStep::Finished(outcome) && outcome@ == verdict,
            None => step is ReadBody,
        },
{
    match response {
        Err(failure) => ProbeStep::Finished(ProbeOutcome::Unhealthy { reason: failure }),
        Ok(status) => {
            if 400 <= status && status < 600 {
                ProbeStep::ReadBody
            } else {
                ProbeStep::Finished(ProbeOutcome::Healthy)
            }
        },
    }
}

/// The reason that the body of an error response gives: the body itself, or
/// the description of the failure to read it.
pub open spec fn reason_of(body: Result<String, String>) -> Seq<char> {
    match body {
        Ok(text) => text@,
        Err(failure) => failure@,
    }
}

/// Settles a probe whose response carried an error status, once its body has
/// been read or has failed to be.
pub fn unhealthy_from_body(body: Result<String, String>) -> (outcome: ProbeOutcome)
    ensures
        outcome@ == (Verdict::Unhealthy { reason: reason_of(body) }),
{
    match body {
        Ok(text) => ProbeOutcome::Unhealthy { reason: text },
        Err(failure) => ProbeOutcome::Unhealthy { reason: failure },
    }
}

} // verus!
