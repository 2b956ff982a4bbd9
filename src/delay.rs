//! Short delays that poll a timeout instead of sleeping.
use crate::timeout::{advance, passed, FreeRtosTimeoutState};
use crate::tick::FreeRtosInstant;
use vstd::prelude::*;

verus! {

/// What a delaying task does after one poll of its timeout.
#[derive(Clone, Copy, Debug, PartialEq, Eq, Structural)]
pub enum DelayStep {
    /// The delay is over.
    Done,
    /// Poll again at once, without giving up the processor.
    Spin,
    /// Yield the processor, then poll again.
    Yield,
}

/// Polls the timeout of a delay at `now`. A nanosecond delay is shorter than a
/// scheduler tick and spins; a microsecond delay yields between polls.
pub fn delay_step(t: &mut FreeRtosTimeoutState, now: FreeRtosInstant, yielding: bool) -> (r: DelayStep)
    requires
        old(t).wf(),
    ensures
        final(t).wf(),
        final(t).budget() == old(t).budget(),
        final(t).reload() == old(t).reload(),
        passed(old(t).target(), now) ==> r == DelayStep::Done
            && final(t).target() == advance(old(t).target(), old(t).budget() as int, old(t).reload()),
        !passed(old(t).target(), now) ==> final(t).target() == old(t).target(),
        !passed(old(t).target(), now) && yielding ==> r == DelayStep::Yield,
        !passed(old(t).target(), now) && !yielding ==> r == DelayStep::Spin,
{
    if t.timeout(now) {
        DelayStep::Done
    } else if yielding {
        DelayStep::Yield
    } else {
        DelayStep::Spin
    }
}

} // verus!
