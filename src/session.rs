use vstd::prelude::*;

verus! {

/// The lifecycle of one browser session: whether it is open, and whether
/// closing it tears the browser and its driver down or leaves them running for
/// inspection.
#[derive(Clone, Copy, Debug, PartialEq, Eq, Structural)]
pub struct SessionGuard {
    pub open: bool,
    pub closing_enabled: bool,
}

/// The guard after one close, and whether that close tears the session down.
pub open spec fn close_spec(g: SessionGuard) -> (SessionGuard, bool) {
    (SessionGuard { open: false, ..g }, g.open && g.closing_enabled)
}

/// How many of `n` closes in a row, from `g` on, tear the session down.
pub open spec fn teardowns(g: SessionGuard, n: nat) -> nat
    decreases n,
{
    if n == 0 {
        0
    } else {
        (if close_spec(g).1 {
            1nat
        } else {
            0nat
        }) + teardowns(close_spec(g).0, (n - 1) as nat)
    }
}

impl SessionGuard {
    /// The guard of a session that was just opened.
    pub fn opened(closing_enabled: bool) -> (r: SessionGuard)
        ensures
            r == (SessionGuard { open: true, closing_enabled }),
    {
        SessionGuard { open: true, closing_enabled }
    }

    /// Close the session; the result says whether the caller must tear it down
    /// now. Safe to call any number of times, also after a failure.
    pub fn close(&mut self) -> (r: bool)
        ensures
            (*final(self), r) == close_spec(*old(self)),
    {
        let r = self.open && self.closing_enabled;
        self.open = false;
        r
    }
}

/// However many times a flow closes an opened session, on success or on any
/// failure path, the session is torn down exactly once when closing is enabled,
/// and never when it is disabled.
pub proof fn lemma_teardown_exactly_once(closing_enabled: bool, n: nat)
    requires
        n >= 1,
    ensures
        teardowns(SessionGuard { open: true, closing_enabled }, n) == (if closing_enabled {
            1nat
        } else {
            0nat
        }),
{
    let g = SessionGuard { open: true, closing_enabled };
    lemma_closed_stays_closed(close_spec(g).0, (n - 1) as nat);
}

proof fn lemma_closed_stays_closed(g: SessionGuard, n: nat)
    requires
        !g.open,
    ensures
        teardowns(g, n) == 0,
    decreases n,
{
    if n > 0 {
        lemma_closed_stays_closed(close_spec(g).0, (n - 1) as nat);
    }
}

} // verus!
