//! Timeouts measured against the tick count and the hardware counter.
use crate::tick::{add_spec, elapsed_spec, lemma_add_elapsed_round_trip, period, phase, tick_ring, FreeRtosInstant};
use vstd::prelude::*;

verus! {

/// `later - earlier` on the tick-count ring, read as a signed 32-bit number.
pub open spec fn tick_count_diff(later: u32, earlier: u32) -> int {
    let d = (later as int - earlier as int) % tick_ring();
    if d >= 0x8000_0000 {
        d - tick_ring()
    } else {
        d
    }
}

/// Whether a check at `now` finds `target` passed: the tick count is at least two
/// ahead of the target's, or it is the target's and the counter, which counts
/// down, is below the target's.
pub open spec fn passed(target: FreeRtosInstant, now: FreeRtosInstant) -> bool {
    let diff = tick_count_diff(now.count, target.count);
    diff > 1 || (diff == 0 && now.sys_tick < target.sys_tick)
}

/// The instant `ticks` counter steps after `from`.
pub open spec fn advance(from: FreeRtosInstant, ticks: int, reload_value: u32) -> FreeRtosInstant {
    let (sys_tick, count) = add_spec(from.sys_tick, from.count, ticks, reload_value);
    FreeRtosInstant { sys_tick, count }
}

/// `a / b`, rounded up.
pub open spec fn ceil_div(a: int, b: int) -> int {
    if a % b == 0 {
        a / b
    } else {
        a / b + 1
    }
}

/// Counter steps in `ns` nanoseconds at `frequency_khz`, rounded up.
pub open spec fn ns_ticks(ns: u32, frequency_khz: u32) -> int {
    ceil_div(ns * frequency_khz, 1_000_000)
}

/// Counter steps in `us` microseconds at `frequency_khz`, rounded up.
pub open spec fn us_ticks(us: u32, frequency_khz: u32) -> int {
    ceil_div(us * frequency_khz, 1_000)
}

/// Counter steps in `ms` milliseconds at `frequency_khz`.
pub open spec fn ms_ticks(ms: u32, frequency_khz: u32) -> int {
    ms * frequency_khz
}

proof fn lemma_product_fits(a: u32, b: u32)
    ensures
        a as int * b as int <= u64::MAX,
{
    assert(a as int * b as int <= 0xffff_ffff * 0xffff_ffff) by (nonlinear_arith)
        requires a <= 0xffff_ffff, b <= 0xffff_ffff;
}

/// A deadline that is checked again and again: the target instant, and the budget
/// in counter steps that arms it.
#[derive(Clone, Copy, Debug)]
pub struct FreeRtosTimeoutState {
    sys_tick: u32,
    count: u32,
    timeout_tick: u64,
    reload_value: u32,
}

impl FreeRtosTimeoutState {
    /// The instant at which the timeout is due.
    pub closed spec fn target(self) -> FreeRtosInstant {
        FreeRtosInstant { sys_tick: self.sys_tick, count: self.count }
    }

    /// The budget, in counter steps.
    pub closed spec fn budget(self) -> u64 {
        self.timeout_tick
    }

    /// The counter's reload value, fixed when the timeout is made.
    pub closed spec fn reload(self) -> u32 {
        self.reload_value
    }

    pub open spec fn wf(self) -> bool {
        self.target().wf(self.reload())
    }

    /// The counter frequency in kHz for a CPU clock of `cpu_clock_hz`.
    pub fn frequency(cpu_clock_hz: u32) -> (r: u32)
        ensures
            r == cpu_clock_hz / 1000,
    {
        cpu_clock_hz / 1000
    }

    /// Arms a timeout of `timeout_tick` counter steps from `now`.
    pub fn new(timeout_tick: u64, now: FreeRtosInstant, reload_value: u32) -> (r: Self)
        requires
            now.wf(reload_value),
        ensures
            r.wf(),
            r.target() == advance(now, timeout_tick as int, reload_value),
            r.budget() == timeout_tick,
            r.reload() == reload_value,
    {
        let (sys_tick, count) = FreeRtosInstant::add(now.sys_tick, now.count, timeout_tick, reload_value);
        FreeRtosTimeoutState { sys_tick, count, timeout_tick, reload_value }
    }

    /// Arms a timeout of `timeout` nanoseconds from `now`.
    pub fn new_ns(timeout: u32, frequency_khz: u32, now: FreeRtosInstant, reload_value: u32) -> (r: Self)
        requires
            now.wf(reload_value),
        ensures
            r.wf(),
            r.budget() == ns_ticks(timeout, frequency_khz),
            r.target() == advance(now, r.budget() as int, reload_value),
            r.reload() == reload_value,
    {
        let ns = timeout as u64;
        proof {
            lemma_product_fits(timeout, frequency_khz);
        }
        let timeout_tick = Self::div_ceil(ns * frequency_khz as u64, 1_000_000);
        Self::new(timeout_tick, now, reload_value)
    }

    /// Arms a timeout of `timeout` microseconds from `now`.
    pub fn new_us(timeout: u32, frequency_khz: u32, now: FreeRtosInstant, reload_value: u32) -> (r: Self)
        requires
            now.wf(reload_value),
        ensures
            r.wf(),
            r.budget() == us_ticks(timeout, frequency_khz),
            r.target() == advance(now, r.budget() as int, reload_value),
            r.reload() == reload_value,
    {
        let us = timeout as u64;
        proof {
            lemma_product_fits(timeout, frequency_khz);
        }
        let timeout_tick = Self::div_ceil(us * frequency_khz as u64, 1_000);
        Self::new(timeout_tick, now, reload_value)
    }

    /// Arms a timeout of `timeout` milliseconds from `now`.
    pub fn new_ms(timeout: u32, frequency_khz: u32, now: FreeRtosInstant, reload_value: u32) -> (r: Self)
        requires
            now.wf(reload_value),
        ensures
            r.wf(),
            r.budget() == ms_ticks(timeout, frequency_khz),
            r.target() == advance(now, r.budget() as int, reload_value),
            r.reload() == reload_value,
    {
        let ms = timeout as u64;
        proof {
            lemma_product_fits(timeout, frequency_khz);
        }
        let timeout_tick = ms * frequency_khz as u64;
        Self::new(timeout_tick, now, reload_value)
    }

    /// The budget, in counter steps.
    pub fn timeout_tick(&self) -> (r: u64)
        ensures
            r == self.budget(),
    {
        self.timeout_tick
    }

    /// The instant at which the timeout is due.
    pub fn deadline(&self) -> (r: FreeRtosInstant)
        ensures
            r == self.target(),
    {
        FreeRtosInstant { sys_tick: self.sys_tick, count: self.count }
    }

    fn div_ceil(a: u64, b: u64) -> (r: u64)
        requires
            b > 0,
        ensures
            r == ceil_div(a as int, b as int),
    {
        proof {
            vstd::arithmetic::div_mod::lemma_fundamental_div_mod(a as int, b as int);
            assert(a / b < a || a / b == 0 || b == 1) by (nonlinear_arith)
                requires b > 0;
        }
        if a % b == 0 {
            a / b
        } else {
            a / b + 1
        }
    }

    /// Checks the timeout at `now`. When it has passed, it is armed again a full
    /// budget after the old target, so that checks can go on without a restart.
    pub fn timeout(&mut self, now: FreeRtosInstant) -> (r: bool)
        requires
            old(self).wf(),
        ensures
            r == passed(old(self).target(), now),
            final(self).wf(),
            final(self).budget() == old(self).budget(),
            final(self).reload() == old(self).reload(),
            r ==> final(self).target() == advance(old(self).target(), old(self).budget() as int, old(self).reload()),
            !r ==> final(self).target() == old(self).target(),
    {
        let diff: u32 = now.count.wrapping_sub(self.count);
        if (diff > 1 && diff <= 0x7fff_ffff) || (diff == 0 && now.sys_tick < self.sys_tick) {
            let (sys_tick, count) = FreeRtosInstant::add(self.sys_tick, self.count, self.timeout_tick, self.reload_value);
            self.sys_tick = sys_tick;
            self.count = count;
            true
        } else {
            false
        }
    }

    /// Arms the timeout again, a full budget after `now`.
    pub fn restart(&mut self, now: FreeRtosInstant)
        requires
            now.wf(old(self).reload()),
        ensures
            final(self).wf(),
            final(self).target() == advance(now, old(self).budget() as int, old(self).reload()),
            final(self).budget() == old(self).budget(),
            final(self).reload() == old(self).reload(),
    {
        let (sys_tick, count) = FreeRtosInstant::add(now.sys_tick, now.count, self.timeout_tick, self.reload_value);
        self.sys_tick = sys_tick;
        self.count = count;
    }
}

/// A timeout armed with a budget of zero is due at the instant it was armed:
/// the first check at an instant past that one reports it expired.
pub proof fn lemma_zero_budget_expires(start: FreeRtosInstant, at: FreeRtosInstant, reload_value: u32)
    requires
        start.wf(reload_value),
        (at.count == start.count && at.sys_tick < start.sys_tick) || tick_count_diff(at.count, start.count) > 1,
    ensures
        advance(start, 0, reload_value) == start,
        passed(advance(start, 0, reload_value), at),
{
    let p = period(reload_value);
    let ph = phase(start.sys_tick, reload_value);
    vstd::arithmetic::div_mod::lemma_fundamental_div_mod_converse(ph, p, 0, ph);
    vstd::arithmetic::div_mod::lemma_small_mod(start.count as nat, tick_ring() as nat);
}

/// When a check finds the timeout passed, the new target lies exactly one budget
/// after the old one: periodic checks do not drift by the time spent between them.
pub proof fn lemma_rearm_without_drift(target: FreeRtosInstant, budget: u64, reload_value: u32)
    requires
        target.wf(reload_value),
        phase(target.sys_tick, reload_value) + budget < tick_ring() * period(reload_value),
    ensures
        advance(target, budget as int, reload_value).wf(reload_value),
        elapsed_spec(
            target.sys_tick,
            target.count,
            advance(target, budget as int, reload_value).sys_tick,
            advance(target, budget as int, reload_value).count,
            reload_value,
        ) == budget,
{
    let p = period(reload_value);
    let total = phase(target.sys_tick, reload_value) + budget;
    vstd::arithmetic::div_mod::lemma_mod_bound(total, p);
    lemma_add_elapsed_round_trip(target.sys_tick, target.count, budget as int, reload_value);
}

/// Two instants whose tick counts lie `2^31 - 1` apart on the ring are ordered the
/// same way wherever they lie on it: the later one has passed the earlier, and
/// the earlier has not passed the later.
pub proof fn lemma_half_ring_order(earlier: FreeRtosInstant, later: FreeRtosInstant)
    requires
        later.count as int == (earlier.count as int + 0x7fff_ffff) % tick_ring(),
    ensures
        tick_count_diff(later.count, earlier.count) == 0x7fff_ffff,
        tick_count_diff(earlier.count, later.count) == -0x7fff_ffff,
        passed(earlier, later),
        !passed(later, earlier),
{
    let m = tick_ring();
    let e = earlier.count as int;
    if e + 0x7fff_ffff < m {
        vstd::arithmetic::div_mod::lemma_small_mod((e + 0x7fff_ffff) as nat, m as nat);
        vstd::arithmetic::div_mod::lemma_small_mod(0x7fff_ffff, m as nat);
        vstd::arithmetic::div_mod::lemma_fundamental_div_mod_converse(-0x7fff_ffff, m, -1, m - 0x7fff_ffff);
    } else {
        vstd::arithmetic::div_mod::lemma_fundamental_div_mod_converse(e + 0x7fff_ffff, m, 1, e + 0x7fff_ffff - m);
        vstd::arithmetic::div_mod::lemma_fundamental_div_mod_converse(0x7fff_ffff - m, m, -1, 0x7fff_ffff);
        vstd::arithmetic::div_mod::lemma_fundamental_div_mod_converse(m - 0x7fff_ffff, m, 0, m - 0x7fff_ffff);
    }
}

} // verus!
