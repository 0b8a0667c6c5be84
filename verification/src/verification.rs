//! The decisions of verifying the bot's device from another session of its
//! own user, by comparing emoji.

use crate::text::same_text;
use vstd::prelude::*;

verus! {

/// What the user types to say that the emoji match.
pub const YES: &'static str = "y";

/// A way of verifying that the other side offers.
#[derive(Clone, Copy, Debug, PartialEq, Eq, Structural)]
pub enum Method {
    /// Short authentication strings: emoji or numbers to compare.
    Sas,
    /// Any other way.
    Other,
}

/// Why a verification request cannot be gone through with.
#[derive(Clone, Copy, Debug, PartialEq, Eq, Structural)]
pub enum MethodError {
    /// The other side has not said which ways it offers.
    NoMethods,
    /// The other side does not offer short authentication strings.
    NoSas,
}

/// Whether a request with the offered ways `methods` can be gone through
/// with: it can if short authentication strings are among them.
pub open spec fn methods_check(methods: Option<Seq<Method>>) -> Result<(), MethodError> {
    match methods {
        None => Err(MethodError::NoMethods),
        Some(offered) => if offered.contains(Method::Sas) {
            Ok(())
        } else {
            Err(MethodError::NoSas)
        },
    }
}

/// Computes `methods_check`.
#[verifier::loop_isolation(false)]
pub fn check_methods(methods: Option<&Vec<Method>>) -> (r: Result<(), MethodError>)
    ensures
        r == methods_check(
            match methods {
                Some(v) => Some(v@),
                None => None,
            },
        ),
{
    match methods {
        None => Err(MethodError::NoMethods),
        Some(offered) => {
            let mut i: usize = 0;
            while i < offered.len()
                invariant
                    i <= offered.len(),
                    forall|j: int| 0 <= j < i ==> offered@[j] != Method::Sas,
                decreases offered.len() - i,
            {
                match offered[i] {
                    Method::Sas => {
                        assert(offered@[i as int] == Method::Sas);
                        return Ok(());
                    },
                    Method::Other => {},
                }
                i += 1;
            }
            Err(MethodError::NoSas)
        },
    }
}

/// Where a verification request stands.
#[derive(Clone, Copy, Debug, PartialEq, Eq, Structural)]
pub enum RequestState {
    Created,
    Requested,
    Ready,
    /// The request has turned into a verification, by short authentication
    /// strings if `sas` holds.
    Transitioned { sas: bool },
    Done,
    Cancelled,
}

/// What to do when a verification request changes its state.
#[derive(Clone, Copy, Debug, PartialEq, Eq, Structural)]
pub enum RequestStep {
    /// Wait for the next change.
    Wait,
    /// Start comparing, and stop following the request.
    StartSas,
    /// Stop following the request.
    Stop,
}

/// The step for a request that has come to `state`: the comparison starts
/// once the request has turned into one, and a request that is done or
/// cancelled is dropped.
pub fn on_request_state(state: RequestState) -> (step: RequestStep)
    ensures
        step == match state {
            RequestState::Transitioned { sas: true } => RequestStep::StartSas,
            RequestState::Done => RequestStep::Stop,
            RequestState::Cancelled => RequestStep::Stop,
            _ => RequestStep::Wait,
        },
{
    match state {
        RequestState::Transitioned { sas } => if sas {
            RequestStep::StartSas
        } else {
            RequestStep::Wait
        },
        RequestState::Done => RequestStep::Stop,
        RequestState::Cancelled => RequestStep::Stop,
        _ => RequestStep::Wait,
    }
}

/// Where a comparison stands.
#[derive(Clone, Copy, Debug, PartialEq, Eq, Structural)]
pub enum SasProgress {
    /// The keys are exchanged: there are emoji to compare.
    KeysExchanged,
    /// The comparison is over, and the device is verified.
    Done,
    /// Anything else.
    Other,
}

/// What to do when a comparison moves on.
#[derive(Clone, Copy, Debug, PartialEq, Eq, Structural)]
pub enum SasStep {
    /// Ask the user whether the emoji match.
    AskUser,
    /// Report success and stop.
    Finish,
    /// Report the state and wait for the next.
    Report,
}

/// The step for a comparison that has come to `progress`.
pub fn on_sas_progress(progress: SasProgress) -> (step: SasStep)
    ensures
        step == match progress {
            SasProgress::KeysExchanged => SasStep::AskUser,
            SasProgress::Done => SasStep::Finish,
            SasProgress::Other => SasStep::Report,
        },
{
    match progress {
        SasProgress::KeysExchanged => SasStep::AskUser,
        SasProgress::Done => SasStep::Finish,
        SasProgress::Other => SasStep::Report,
    }
}

/// Whether the answer `line` of the user confirms that the emoji match: it
/// does if it is `y`, and everything else cancels the verification.
pub fn confirms(line: &str) -> (yes: bool)
    ensures
        yes == (line@ == YES@),
{
    same_text(line, YES)
}

} // verus!
