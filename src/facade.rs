//! The decisions of the lock and unlock operations. The system call itself
//! is made by the caller between a step and its verdict.
use vstd::prelude::*;
use crate::backend::{BackendInitializer, settle_state, InitOutcome};
use crate::error::MemError;
use crate::view::{resolve, resolved, Access, Probe, ResolvedView};

verus! {

/// What the system answered to a request to unlock a region.
#[derive(Debug, Clone, Copy, PartialEq, Eq, Structural)]
pub enum UnlockAnswer {
    /// The region was unlocked.
    Accepted,
    /// The system refused because the region, or a page it shares with an
    /// already-unlocked region, is not locked: a repeated or overlapping
    /// unlock. The memory is already in the requested state.
    NotLocked,
    /// The system refused for any other reason (an invalid range, say).
    Refused,
}

/// What happens next in a lock or unlock request.
#[derive(Debug, Clone, Copy, PartialEq, Eq, Structural)]
pub enum Step {
    /// The request succeeded without a system call.
    Done,
    /// The request failed with this error; the system is not called.
    Fail(MemError),
    /// The system is to be asked to lock or unlock this view's bytes.
    CallSystem(ResolvedView),
}

/// The step of a lock request on a backend of readiness `ready`: readiness is
/// checked first, then the value is resolved for writing; an empty view needs
/// no system call.
pub open spec fn lock_step_of(ready: bool, p: Probe) -> Step {
    if !ready {
        Step::Fail(MemError::BackendInitFailed)
    } else {
        match resolved(p, Access::Write) {
            Err(e) => Step::Fail(e),
            Ok(v) => if v.len == 0 {
                Step::Done
            } else {
                Step::CallSystem(v)
            },
        }
    }
}

/// The step of an unlock request: the value is resolved for writing; an
/// empty view needs no system call.
pub open spec fn unlock_step_of(p: Probe) -> Step {
    match resolved(p, Access::Write) {
        Err(e) => Step::Fail(e),
        Ok(v) => if v.len == 0 {
            Step::Done
        } else {
            Step::CallSystem(v)
        },
    }
}

/// The result of a lock request once the system answered `accepted`.
pub open spec fn lock_verdict_of(accepted: bool) -> Result<(), MemError> {
    if accepted {
        Ok(())
    } else {
        Err(MemError::LockFailed)
    }
}

/// The result of an unlock request once the system answered: a repeated or
/// overlapping unlock is success, any other refusal is a failure.
pub open spec fn unlock_verdict_of(answer: UnlockAnswer) -> Result<(), MemError> {
    match answer {
        UnlockAnswer::Accepted => Ok(()),
        UnlockAnswer::NotLocked => Ok(()),
        UnlockAnswer::Refused => Err(MemError::UnlockFailed),
    }
}

/// The whole lock request, when the system would answer `accepted`.
pub open spec fn lock_outcome(ready: bool, p: Probe, accepted: bool) -> Result<(), MemError> {
    match lock_step_of(ready, p) {
        Step::Done => Ok(()),
        Step::Fail(e) => Err(e),
        Step::CallSystem(_) => lock_verdict_of(accepted),
    }
}

/// The whole unlock request, when the system would answer `answer`.
pub open spec fn unlock_outcome(p: Probe, answer: UnlockAnswer) -> Result<(), MemError> {
    match unlock_step_of(p) {
        Step::Done => Ok(()),
        Step::Fail(e) => Err(e),
        Step::CallSystem(_) => unlock_verdict_of(answer),
    }
}

/// The first step of locking the value described by `p`. The single
/// initialization attempt must have been made: locking before it is a
/// programming error.
pub fn lock_step(gate: &BackendInitializer, p: &Probe) -> (r: Step)
    requires
        gate@ is Some,
    ensures
        r == lock_step_of(gate@ == Some(true), *p),
{
    if !gate.is_ready() {
        return Step::Fail(MemError::BackendInitFailed);
    }
    match resolve(p, Access::Write) {
        Err(e) => Step::Fail(e),
        Ok(v) => if v.len == 0 {
            Step::Done
        } else {
            Step::CallSystem(v)
        },
    }
}

/// The result of locking, given whether the system accepted the request.
pub fn lock_verdict(accepted: bool) -> (r: Result<(), MemError>)
    ensures
        r == lock_verdict_of(accepted),
{
    if accepted {
        Ok(())
    } else {
        Err(MemError::LockFailed)
    }
}

/// The first step of unlocking the value described by `p`.
pub fn unlock_step(p: &Probe) -> (r: Step)
    ensures
        r == unlock_step_of(*p),
{
    match resolve(p, Access::Write) {
        Err(e) => Step::Fail(e),
        Ok(v) => if v.len == 0 {
            Step::Done
        } else {
            Step::CallSystem(v)
        },
    }
}

/// The result of unlocking, given what the system answered.
pub fn unlock_verdict(answer: UnlockAnswer) -> (r: Result<(), MemError>)
    ensures
        r == unlock_verdict_of(answer),
{
    match answer {
        UnlockAnswer::Accepted => Ok(()),
        UnlockAnswer::NotLocked => Ok(()),
        UnlockAnswer::Refused => Err(MemError::UnlockFailed),
    }
}

/// A value that cannot be resolved for writing is refused as unsupported by
/// both lock (on a ready backend) and unlock, before any system call.
pub proof fn lemma_unsupported_refused(p: Probe, accepted: bool, answer: UnlockAnswer)
    requires
        resolved(p, Access::Write) is Err,
    ensures
        resolved(p, Access::Write) == Err::<ResolvedView, MemError>(MemError::Unsupported),
        lock_step_of(true, p) == Step::Fail(MemError::Unsupported),
        unlock_step_of(p) == Step::Fail(MemError::Unsupported),
        lock_outcome(true, p, accepted) == Err::<(), MemError>(MemError::Unsupported),
        unlock_outcome(p, answer) == Err::<(), MemError>(MemError::Unsupported),
{
}

/// Locking and then unlocking a supported value both succeed when the system
/// accepts both requests, whatever the value's size.
pub proof fn lemma_lock_then_unlock(p: Probe)
    requires
        resolved(p, Access::Write) is Ok,
    ensures
        lock_outcome(true, p, true) == Ok::<(), MemError>(()),
        unlock_outcome(p, UnlockAnswer::Accepted) == Ok::<(), MemError>(()),
{
}

/// A repeated unlock, or one of a region sharing a page with an unlocked
/// one, never surfaces as a failure: the system either accepts it or answers
/// that the region is not locked. Any other refusal of a non-empty region is
/// a failure, on every platform.
pub proof fn lemma_repeated_unlock(p: Probe, answer: UnlockAnswer)
    requires
        resolved(p, Access::Write) is Ok,
    ensures
        answer != UnlockAnswer::Refused ==> unlock_outcome(p, answer) == Ok::<(), MemError>(()),
        answer == UnlockAnswer::Refused ==> unlock_outcome(p, answer) == (if resolved(
            p,
            Access::Write,
        ).unwrap().len == 0 {
            Ok::<(), MemError>(())
        } else {
            Err(MemError::UnlockFailed)
        }),
{
}

/// Every lock request made once readiness has settled sees the same readiness:
/// however many attempts race to report, the first alone decides, and either
/// every request fails for want of a backend or none does.
pub proof fn lemma_shared_readiness(
    s: Option<bool>,
    first: InitOutcome,
    later: InitOutcome,
    p: Probe,
    q: Probe,
)
    ensures
        settle_state(settle_state(s, first), later) == settle_state(s, first),
        (lock_step_of(settle_state(s, first) == Some(true), p) == Step::Fail(
            MemError::BackendInitFailed,
        )) == (lock_step_of(settle_state(s, first) == Some(true), q) == Step::Fail(
            MemError::BackendInitFailed,
        )),
        (lock_step_of(settle_state(s, first) == Some(true), p) == Step::Fail(
            MemError::BackendInitFailed,
        )) == (settle_state(s, first) != Some(true)),
{
}

/// Locking an empty buffer on a ready backend succeeds without a system call.
pub proof fn lemma_empty_lock_succeeds(p: Probe, accepted: bool)
    requires
        resolved(p, Access::Write) is Ok,
        resolved(p, Access::Write).unwrap().len == 0,
    ensures
        lock_step_of(true, p) == Step::Done,
        lock_outcome(true, p, accepted) == Ok::<(), MemError>(()),
{
}

} // verus!
