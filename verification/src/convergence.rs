//! What holds of `plan`, `execute` and `revert` together, for the atom that
//! enforces permission bits.
//!
//! The host is not part of this library. Where a statement speaks of the
//! file after a change, it goes by `with_permissions`: a host that sets
//! permissions replaces the permission bits of the mode word and leaves the
//! file-type bits alone.

use vstd::prelude::*;
use crate::atom::{settled, Atom, MutationError, RevertError};
use crate::mode::{lemma_with_permissions, permission_bits, with_permissions};
use crate::permissions::FilePermissions;
use crate::platform::Platform;

verus! {

/// Idempotence: two calls of `plan` with the same atom, platform and
/// observation return the same answer.
pub proof fn plan_is_repeatable(
    atom: FilePermissions,
    platform: Platform,
    observed: Option<u32>,
    first: bool,
    second: bool,
)
    requires
        atom.well_formed(),
        call_ensures(<FilePermissions as Atom>::plan, (&atom, platform, observed), first),
        call_ensures(<FilePermissions as Atom>::plan, (&atom, platform, observed), second),
    ensures
        first == second,
{
}

/// Convergence: drift is reported exactly where the permission bits on disk
/// differ from the desired ones, and once the host has carried out the
/// change that `execute` names, no drift is left.
pub proof fn execute_converges(atom: FilePermissions, on_disk: u32)
    requires
        atom.well_formed(),
    ensures
        permission_bits(on_disk) != atom@.mode <==> atom.drifted(Platform::Posix, Some(on_disk)),
        atom.remedy(Platform::Posix) is Some,
        !atom.drifted(
            Platform::Posix,
            Some(with_permissions(on_disk, atom.remedy(Platform::Posix)->0)),
        ),
{
    lemma_with_permissions(on_disk, atom@.mode);
}

/// No-op when converged: where the permission bits on disk are the desired
/// ones, no drift is reported on any platform, and the change that `execute`
/// names leaves the file's mode word as it is.
pub proof fn converged_is_left_alone(atom: FilePermissions, platform: Platform, on_disk: u32)
    requires
        atom.well_formed(),
        permission_bits(on_disk) == atom@.mode,
    ensures
        !atom.drifted(platform, Some(on_disk)),
        with_permissions(on_disk, atom.remedy(Platform::Posix)->0) == on_disk,
{
    lemma_with_permissions(on_disk, atom@.mode);
}

/// Fail-safe inspection: a file that could not be inspected is never
/// reported as drifted.
pub proof fn uninspected_is_not_drifted(atom: FilePermissions, platform: Platform)
    ensures
        !atom.drifted(platform, None),
{
}

/// Mutation failure propagation: on a host with permission bits `execute`
/// always names a change, and where the host fails to carry it out the
/// result is an error with the host's cause; success is reported only for a
/// host that succeeded.
pub proof fn mutation_failure_is_reported<C>(atom: FilePermissions, answer: Result<(), C>)
    ensures
        atom.remedy(Platform::Posix) is Some,
        answer is Err ==> settled(answer) == Err::<(), MutationError<C>>(
            MutationError { cause: answer->Err_0 },
        ),
        settled(answer) is Ok <==> answer is Ok,
{
}

/// On a host without permission bits the atom is inert: it reports no
/// drift, names no change, and reverts to nothing without an error.
pub proof fn inert_elsewhere(atom: FilePermissions, observed: Option<u32>, prior: Option<u32>)
    ensures
        !atom.drifted(Platform::Other, observed),
        atom.remedy(Platform::Other) is None,
        atom.restoration(Platform::Other, prior) == Ok::<Option<u32>, RevertError>(None),
{
}

/// Revert fails closed: on a host with permission bits it names a change
/// exactly when an earlier mode word was captured, and reports
/// `NothingCaptured` otherwise.
pub proof fn revert_fails_closed(atom: FilePermissions, prior: Option<u32>)
    ensures
        prior is Some <==> atom.restoration(Platform::Posix, prior) is Ok,
        prior is None ==> atom.restoration(Platform::Posix, prior) == Err::<
            Option<u32>,
            RevertError,
        >(RevertError::NothingCaptured),
{
}

/// Revert undoes execute: after the change that `execute` names and then
/// the change that `revert` names for the mode word captured before, the
/// file's mode word is the captured one again.
pub proof fn revert_restores(atom: FilePermissions, captured: u32)
    requires
        atom.well_formed(),
    ensures
        atom.restoration(Platform::Posix, Some(captured)) matches Ok(Some(back))
            && with_permissions(
            with_permissions(captured, atom.remedy(Platform::Posix)->0),
            back,
        ) == captured,
{
    let bits: u32 = atom@.mode;
    assert(((((captured & !0o7777u32) | (bits & 0o7777u32)) & !0o7777u32) | ((captured
        & 0o7777u32) & 0o7777u32)) == captured) by (bit_vector);
}

} // verus!
