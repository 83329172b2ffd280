//! Rules of the process-wide set-once pool slot.
//!
//! At most one pool exists per process. The slot accepts exactly one
//! write: the first completed initialization stores its pool, and a
//! second initialization attempt is fatal. The getter yields the
//! pool only after initialization has completed; earlier calls are
//! fatal. `PoolLifecycle` models the slot's state, and the
//! application holds the slot itself to these decisions.

use vstd::prelude::*;

verus! {

/// The state of the process-wide pool slot: empty until the first
/// initialization completes, occupied forever after.
pub struct PoolLifecycle {
    initialized: bool,
}

/// One initialization attempt completing against the slot: `stored`
/// says whether the slot accepted the pool, and the slot is occupied
/// afterwards either way.
pub open spec fn init_step(pre: PoolLifecycle, post: PoolLifecycle, stored: bool) -> bool {
    &&& stored == !pre.is_initialized()
    &&& post.is_initialized()
}

/// Whether the getter yields a pool in the given state; when it does
/// not, the call is fatal.
pub open spec fn getter_succeeds(s: PoolLifecycle) -> bool {
    s.is_initialized()
}

impl PoolLifecycle {
    /// Whether an initialization has completed.
    pub closed spec fn is_initialized(&self) -> bool {
        self.initialized
    }

    /// The state at process start: no pool exists yet.
    pub fn new() -> (s: Self)
        ensures
            !s.is_initialized(),
    {
        PoolLifecycle { initialized: false }
    }

    /// Decides an initialization attempt that has a pool ready to
    /// store: the slot accepts it only if it is still empty. A
    /// `false` result is fatal to the caller.
    pub fn record_init(&mut self) -> (stored: bool)
        ensures
            init_step(*old(self), *final(self), stored),
    {
        let was = self.initialized;
        self.initialized = true;
        !was
    }

    /// Decides a getter call: the pool may be handed out only once
    /// initialization has completed. A `false` result is fatal to
    /// the caller.
    pub fn pool_available(&self) -> (ok: bool)
        ensures
            ok == getter_succeeds(*self),
    {
        self.initialized
    }
}

/// Before any initialization has completed, the getter has nothing
/// to yield: the call is fatal.
pub proof fn lemma_getter_fatal_before_init(s: PoolLifecycle)
    requires
        !s.is_initialized(),
    ensures
        !getter_succeeds(s),
{
}

/// From a fresh process, the first initialization to complete stores
/// its pool, and the getter succeeds from then on.
pub proof fn lemma_first_init_succeeds(s0: PoolLifecycle, s1: PoolLifecycle, stored: bool)
    requires
        !s0.is_initialized(),
        init_step(s0, s1, stored),
    ensures
        stored,
        getter_succeeds(s1),
{
}

/// Initializing twice in the same process is fatal on the second
/// attempt: the slot accepts only the first pool.
pub proof fn lemma_second_init_fatal(
    s0: PoolLifecycle,
    s1: PoolLifecycle,
    s2: PoolLifecycle,
    stored1: bool,
    stored2: bool,
)
    requires
        !s0.is_initialized(),
        init_step(s0, s1, stored1),
        init_step(s1, s2, stored2),
    ensures
        stored1,
        !stored2,
{
}

} // verus!
