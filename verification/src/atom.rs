//! The contract that every atom meets: plan, execute, revert, and a
//! description of the pending change.
//!
//! An atom holds no handle on the resource it is about. Each operation is a
//! decision over plain values: the caller inspects the resource and hands
//! the observation in, and carries out the change that comes back. What the
//! host then answers is turned into the operation's result by `settle`.

use vstd::prelude::*;
use crate::platform::Platform;

verus! {

/// Why `revert` could not name a change.
#[derive(Clone, Copy, Debug, PartialEq, Eq, Structural)]
pub enum RevertError {
    /// No earlier state of the resource was captured, so there is nothing to
    /// go back to.
    NothingCaptured,
}

/// A change that the host could not carry out, with the cause it gave.
#[derive(Debug)]
pub struct MutationError<C> {
    pub cause: C,
}

/// What `execute` or `revert` reports for each answer of the host: success
/// for success, and for a failure an error that carries the host's cause.
pub open spec fn settled<C>(answer: Result<(), C>) -> Result<(), MutationError<C>> {
    match answer {
        Ok(_) => Ok(()),
        Err(cause) => Err(MutationError { cause }),
    }
}

/// The result of `execute` or `revert` once the host has answered the change
/// it was handed.
///
/// A failed mutation is never masked: the result is an error exactly when
/// the host reported one, and it carries the host's cause unchanged.
pub fn settle<C>(answer: Result<(), C>) -> (result: Result<(), MutationError<C>>)
    ensures
        result == settled(answer),
{
    match answer {
        Ok(_) => Ok(()),
        Err(cause) => Err(MutationError { cause }),
    }
}

/// One idempotent unit of desired-state convergence.
pub trait Atom {
    /// What an inspection of the resource yields.
    type Observed;

    /// A mutation that the host is asked to carry out.
    type Change;

    /// Whether applying this atom would change the resource, given what an
    /// inspection yielded (`None` where the resource could not be inspected).
    spec fn drifted(&self, platform: Platform, observed: Option<Self::Observed>) -> bool;

    /// The change that brings the resource to the desired state, or `None`
    /// where there is nothing for the host to do.
    spec fn remedy(&self, platform: Platform) -> Option<Self::Change>;

    /// The change that brings back the state captured in `prior`.
    spec fn restoration(&self, platform: Platform, prior: Option<Self::Observed>) -> Result<
        Option<Self::Change>,
        RevertError,
    >;

    /// The text that describes the pending change.
    spec fn description(&self) -> Seq<char>;

    /// Reports whether the resource has drifted from the desired state.
    ///
    /// The answer is a function of the arguments alone, so asking again with
    /// the same observation gives the same answer. A resource that could not
    /// be inspected is never reported as drifted.
    fn plan(&self, platform: Platform, observed: Option<Self::Observed>) -> (drift: bool)
        ensures
            drift == self.drifted(platform, observed),
            observed is None ==> !drift,
    ;

    /// Names the change that the host must carry out to converge the
    /// resource, or `None` where the atom is inert.
    fn execute(&self, platform: Platform) -> (change: Option<Self::Change>)
        ensures
            change == self.remedy(platform),
    ;

    /// Names the change that restores the state captured before `execute`.
    ///
    /// Without a captured state a change is never named: the result is
    /// either an error or, where the atom is inert, `Ok(None)`.
    fn revert(&self, platform: Platform, prior: Option<Self::Observed>) -> (change: Result<
        Option<Self::Change>,
        RevertError,
    >)
        ensures
            change == self.restoration(platform, prior),
            prior is None ==> !(change matches Ok(Some(_))),
    ;

    /// Describes the pending change, for a dry run.
    fn to_string(&self) -> (text: String)
        ensures
            text@ == self.description(),
    ;
}

} // verus!
