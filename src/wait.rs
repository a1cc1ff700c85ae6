use vstd::prelude::*;

verus! {

/// What a waiting lookup does after one probe of the page.
#[derive(Clone, Copy, Debug, PartialEq, Eq, Structural)]
pub enum Probe {
    /// The target is there: the wait ends with it.
    Found,
    /// Not there yet and the horizon has not passed: probe again later.
    Retry,
    /// Not there and the whole horizon has passed: the wait times out.
    TimedOut,
}

/// Decide after a probe that did or did not find the target, `elapsed_ms`
/// after the wait began, with a wait horizon of `horizon_ms`. The wait times
/// out exactly when the target is still missing once the horizon has passed.
pub fn probe_outcome(found: bool, elapsed_ms: u64, horizon_ms: u64) -> (r: Probe)
    ensures
        found ==> r == Probe::Found,
        (r == Probe::TimedOut) <==> (!found && elapsed_ms >= horizon_ms),
        (r == Probe::Retry) <==> (!found && elapsed_ms < horizon_ms),
{
    if found {
        Probe::Found
    } else if elapsed_ms >= horizon_ms {
        Probe::TimedOut
    } else {
        Probe::Retry
    }
}

} // verus!
