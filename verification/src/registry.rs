//! Process-wide driver registry: one-time initialization and session
//! accounting.
//!
//! The native backend's driver table must be registered before any context
//! exists, at most once per process, however many sessions come and go.
//! This module is the state machine of that registry: initialization is
//! idempotent, sessions are counted while open, and no teardown transition
//! exists at all — the registry's resources live for the process lifetime
//! by design, which trades a small fixed leak for the absence of
//! use-after-teardown races between uncoordinated sessions.  The caller
//! that owns the process-wide instance serializes access to it; the
//! transitions here are what every such caller observes.

use vstd::prelude::*;

verus! {

/// The registry's abstract state: whether the driver table is registered,
/// and how many sessions are currently open.
pub struct DriverRegistry {
    /// Whether the driver table has been registered.
    pub initialized: bool,
    /// How many sessions are currently open.
    pub open_sessions: u64,
}

/// The state after an initialization request: initialized, with everything
/// else unchanged.
pub open spec fn initialized_state(s: DriverRegistry) -> DriverRegistry {
    DriverRegistry { initialized: true, ..s }
}

impl DriverRegistry {
    /// Whether the driver table has been registered.
    pub open spec fn is_initialized(self) -> bool {
        self.initialized
    }

    /// How many sessions are currently open.
    pub open spec fn session_count(self) -> nat {
        self.open_sessions as nat
    }

    /// A fresh registry: not yet initialized, no open sessions.
    pub fn new() -> (r: DriverRegistry)
        ensures
            !r.is_initialized(),
            r.session_count() == 0,
    {
        DriverRegistry { initialized: false, open_sessions: 0 }
    }

    /// Requests initialization.  The first request initializes; every later
    /// request observes the already-initialized state and changes nothing,
    /// so the operation never fails and may be repeated freely.
    pub fn ensure_initialized(&mut self)
        ensures
            *final(self) == initialized_state(*old(self)),
            final(self).is_initialized(),
            final(self).session_count() == old(self).session_count(),
    {
        if !self.initialized {
            self.initialized = true;
        }
    }

    /// Records that a session was opened.
    pub fn note_session_opened(&mut self)
        requires
            old(self).session_count() < u64::MAX,
        ensures
            final(self).session_count() == old(self).session_count() + 1,
            final(self).is_initialized() == old(self).is_initialized(),
    {
        self.open_sessions = self.open_sessions + 1;
    }

    /// Records that a session was closed.
    pub fn note_session_closed(&mut self)
        requires
            old(self).session_count() >= 1,
        ensures
            final(self).session_count() == old(self).session_count() - 1,
            final(self).is_initialized() == old(self).is_initialized(),
    {
        self.open_sessions = self.open_sessions - 1;
    }
}

/// Initialization is idempotent: a second request finds the state a first
/// request leaves and changes nothing, so any number of requests — in
/// whatever interleaving the owning caller serializes them — leave the one
/// state that a single request reaches.
pub proof fn lemma_ensure_initialized_idempotent(s: DriverRegistry)
    ensures
        initialized_state(initialized_state(s)) == initialized_state(s),
{
}

/// Session accounting reconciles: a session opened and then closed leaves
/// the count, and the whole registry state, exactly as it was, so matched
/// open/close pairs leak nothing at the session level.
pub proof fn lemma_session_accounting_reconciles(s: DriverRegistry)
    requires
        s.session_count() < u64::MAX,
    ensures
        ({
            let opened = DriverRegistry { open_sessions: (s.open_sessions + 1) as u64, ..s };
            let closed = DriverRegistry { open_sessions: (opened.open_sessions - 1) as u64, ..opened };
            closed == s
        }),
{
}

} // verus!
