//! The memory-lock backend's readiness gate and its unlock policy.
use vstd::prelude::*;

verus! {

/// What the backend's one initialization attempt reported.
#[derive(Debug, Clone, Copy, PartialEq, Eq, Structural)]
pub enum InitOutcome {
    /// The backend was set up by this attempt.
    Initialized,
    /// Someone else had already set the backend up.
    AlreadyInitialized,
    /// Setting the backend up failed.
    Failed,
}

/// Whether an initialization outcome leaves the backend usable.
pub open spec fn outcome_ready(o: InitOutcome) -> bool {
    o != InitOutcome::Failed
}

/// The readiness after an attempt that reported `o`: once settled, it
/// keeps its first result and ignores any later report.
pub open spec fn settle_state(s: Option<bool>, o: InitOutcome) -> Option<bool> {
    match s {
        Some(b) => Some(b),
        None => Some(outcome_ready(o)),
    }
}

/// A one-time gate in front of a backend that must be initialized before use.
/// Its view is `None` before the single attempt and `Some(ready)` after it.
pub struct BackendInitializer {
    settled: Option<bool>,
}

impl View for BackendInitializer {
    type V = Option<bool>;

    closed spec fn view(&self) -> Option<bool> {
        self.settled
    }
}

impl BackendInitializer {
    /// A gate whose initialization attempt has not been made yet.
    pub fn new() -> (r: Self)
        ensures
            r@ is None,
    {
        BackendInitializer { settled: None }
    }

    /// A gate for a backend that needs no initialization: always ready.
    pub fn without_init() -> (r: Self)
        ensures
            r@ == Some(true),
    {
        BackendInitializer { settled: Some(true) }
    }

    /// Whether the initialization attempt is still to be made.
    pub fn needs_attempt(&self) -> (r: bool)
        ensures
            r == (self@ is None),
    {
        self.settled.is_none()
    }

    /// Records the outcome of the initialization attempt and returns whether
    /// the backend is ready. Only the first outcome counts: "already
    /// initialized" is as good as a fresh success, and a failure is final.
    pub fn settle(&mut self, outcome: InitOutcome) -> (r: bool)
        ensures
            final(self)@ == settle_state(old(self)@, outcome),
            r == final(self)@.unwrap(),
            old(self)@ is Some ==> final(self)@ == old(self)@,
    {
        match self.settled {
            Some(b) => b,
            None => {
                let ready = !matches!(outcome, InitOutcome::Failed);
                self.settled = Some(ready);
                ready
            },
        }
    }

    /// Whether the attempt has been made and left the backend ready.
    pub fn is_ready(&self) -> (r: bool)
        ensures
            r == (self@ == Some(true)),
    {
        match self.settled {
            Some(b) => b,
            None => false,
        }
    }
}

/// Readiness settles once: whatever later attempts report, a settled gate
/// keeps the result of the first, so every caller sees the same readiness.
pub proof fn lemma_gate_settles_once(s: Option<bool>, first: InitOutcome, later: InitOutcome)
    ensures
        settle_state(settle_state(s, first), later) == settle_state(s, first),
        settle_state(s, first) is Some,
        s is None ==> settle_state(s, first) == Some(outcome_ready(first)),
{
}

} // verus!
