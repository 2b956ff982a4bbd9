//! Fine-grained instants built from the kernel tick count and the hardware
//! down-counter that drives it.
use vstd::arithmetic::div_mod::{
    lemma_add_mod_noop, lemma_fundamental_div_mod, lemma_fundamental_div_mod_converse,
    lemma_small_mod,
};
use vstd::prelude::*;

verus! {

/// Number of distinct tick counts before the count wraps around.
pub open spec fn tick_ring() -> int {
    0x1_0000_0000
}

/// Counter steps in one tick period: the counter runs from `reload_value` down to zero.
pub open spec fn period(reload_value: u32) -> int {
    reload_value as int + 1
}

/// Counter steps of the current tick period that have already gone by.
pub open spec fn phase(sys_tick: u32, reload_value: u32) -> int {
    reload_value as int - sys_tick as int
}

/// The instant `ticks` counter steps after `(sys_tick, count)`, as `(sys_tick, count)`.
pub open spec fn add_spec(sys_tick: u32, count: u32, ticks: int, reload_value: u32) -> (u32, u32) {
    let total = phase(sys_tick, reload_value) + ticks;
    (
        (reload_value as int - total % period(reload_value)) as u32,
        ((count as int + total / period(reload_value)) % tick_ring()) as u32,
    )
}

/// Counter steps from `(from_sys_tick, from_count)` to `(to_sys_tick, to_count)`,
/// with the tick counts taken on the ring.
pub open spec fn elapsed_spec(
    from_sys_tick: u32,
    from_count: u32,
    to_sys_tick: u32,
    to_count: u32,
    reload_value: u32,
) -> int {
    ((to_count as int - from_count as int) % tick_ring()) * period(reload_value)
        + from_sys_tick as int - to_sys_tick as int
}

/// Splits `phase + ticks` into whole periods and a remainder, given `ticks`
/// split as `quotient * period + rem`.
proof fn lemma_period_split(sys_tick: int, reload_value: int, ticks: int, quotient: int, rem: int)
    requires
        0 <= sys_tick <= reload_value,
        0 <= rem < reload_value + 1,
        ticks == quotient * (reload_value + 1) + rem,
    ensures
        rem > sys_tick ==> (reload_value - sys_tick + ticks) / (reload_value + 1) == quotient + 1,
        rem > sys_tick ==> (reload_value - sys_tick + ticks) % (reload_value + 1) == rem - sys_tick - 1,
        rem <= sys_tick ==> (reload_value - sys_tick + ticks) / (reload_value + 1) == quotient,
        rem <= sys_tick ==> (reload_value - sys_tick + ticks) % (reload_value + 1) == reload_value - sys_tick + rem,
{
    let p = reload_value + 1;
    assert((quotient + 1) * p == quotient * p + p) by (nonlinear_arith);
    if rem > sys_tick {
        lemma_fundamental_div_mod_converse(reload_value - sys_tick + ticks, p, quotient + 1, rem - sys_tick - 1);
    } else {
        lemma_fundamental_div_mod_converse(reload_value - sys_tick + ticks, p, quotient, reload_value - sys_tick + rem);
    }
}

/// A point in time: the tick count stands at `count`, and the down-counter at
/// `sys_tick` in the tick period that began when the count reached it.
#[derive(Clone, Copy, Debug, PartialEq, Eq)]
pub struct FreeRtosInstant {
    pub sys_tick: u32,
    pub count: u32,
}

impl FreeRtosInstant {
    /// The counter value lies within the counter's range.
    pub open spec fn wf(self, reload_value: u32) -> bool {
        self.sys_tick <= reload_value
    }

    pub fn new(sys_tick: u32, count: u32) -> (r: Self)
        ensures
            r.sys_tick == sys_tick,
            r.count == count,
    {
        FreeRtosInstant { sys_tick, count }
    }

    /// Picks a consistent `(sys_tick, count)` out of two back-to-back samples of the
    /// tick count and the counter. When the tick count moved between them the
    /// counter was reloaded in between, and the second sample is the one to trust.
    pub fn now_tick_count(count: u32, sys_tick: u32, count2: u32, sys_tick2: u32) -> (r: (u32, u32))
        ensures
            count != count2 ==> r == (sys_tick2, count2),
            count == count2 ==> r == (sys_tick, count),
    {
        if count != count2 {
            (sys_tick2, count2)
        } else {
            (sys_tick, count)
        }
    }

    /// The instant given by two back-to-back samples (see `now_tick_count`).
    pub fn now(count: u32, sys_tick: u32, count2: u32, sys_tick2: u32) -> (r: Self)
        ensures
            count != count2 ==> r == (FreeRtosInstant { sys_tick: sys_tick2, count: count2 }),
            count == count2 ==> r == (FreeRtosInstant { sys_tick, count }),
    {
        let (sys_tick, count) = Self::now_tick_count(count, sys_tick, count2, sys_tick2);
        FreeRtosInstant { sys_tick, count }
    }

    /// The instant `tick` counter steps after `(sys_tick, count)`.
    pub fn add(sys_tick: u32, count: u32, tick: u64, reload_value: u32) -> (r: (u32, u32))
        requires
            sys_tick <= reload_value,
        ensures
            r == add_spec(sys_tick, count, tick as int, reload_value),
            r.0 <= reload_value,
    {
        let reload: u64 = reload_value as u64 + 1;
        let diff_count: u64 = tick / reload;
        proof {
            lemma_fundamental_div_mod(tick as int, reload as int);
            assert(diff_count * reload == reload * diff_count) by (nonlinear_arith);
        }
        let diff_sys_tick: u64 = tick - diff_count * reload;
        proof {
            lemma_period_split(sys_tick as int, reload_value as int, tick as int, diff_count as int, diff_sys_tick as int);
        }
        if diff_sys_tick > sys_tick as u64 {
            proof {
                assert(diff_count <= tick / 2) by (nonlinear_arith)
                    requires diff_count * reload <= tick, reload >= 2;
            }
            let steps: u64 = diff_count + 1;
            let new_sys_tick = (sys_tick as u64 + reload - diff_sys_tick) as u32;
            proof {
                lemma_add_mod_noop(count as int, steps as int, tick_ring());
            }
            (new_sys_tick, count.wrapping_add((steps % 0x1_0000_0000) as u32))
        } else {
            proof {
                lemma_add_mod_noop(count as int, diff_count as int, tick_ring());
            }
            ((sys_tick as u64 - diff_sys_tick) as u32, count.wrapping_add((diff_count % 0x1_0000_0000) as u32))
        }
    }

    /// Counter steps from `self` to the later instant `(sys_tick, count)`.
    pub fn elapsed(&self, sys_tick: u32, count: u32, reload_value: u32) -> (r: u64)
        requires
            elapsed_spec(self.sys_tick, self.count, sys_tick, count, reload_value) >= 0,
        ensures
            r == elapsed_spec(self.sys_tick, self.count, sys_tick, count, reload_value),
    {
        let reload: u64 = reload_value as u64 + 1;
        let diff: u64 = count.wrapping_sub(self.count) as u64;
        assert(diff == (count as int - self.count as int) % tick_ring());
        assert(diff * reload <= 0xffff_ffff * 0x1_0000_0000) by (nonlinear_arith)
            requires diff <= 0xffff_ffff, reload <= 0x1_0000_0000;
        diff * reload + self.sys_tick as u64 - sys_tick as u64
    }

    /// Moves `self` forward by `ticks` counter steps.
    pub fn move_forward(&mut self, ticks: u64, reload_value: u32)
        requires
            old(self).wf(reload_value),
        ensures
            (final(self).sys_tick, final(self).count) == add_spec(old(self).sys_tick, old(self).count, ticks as int, reload_value),
            final(self).wf(reload_value),
    {
        let (sys_tick, count) = Self::add(self.sys_tick, self.count, ticks, reload_value);
        self.sys_tick = sys_tick;
        self.count = count;
    }
}

/// Going `ticks` counter steps forward from an instant and measuring the time
/// from that instant to the result gives back `ticks`, provided the tick count
/// does not go once round its ring on the way.
pub proof fn lemma_add_elapsed_round_trip(sys_tick: u32, count: u32, ticks: int, reload_value: u32)
    requires
        sys_tick <= reload_value,
        0 <= ticks,
        phase(sys_tick, reload_value) + ticks < tick_ring() * period(reload_value),
    ensures
        elapsed_spec(
            sys_tick,
            count,
            add_spec(sys_tick, count, ticks, reload_value).0,
            add_spec(sys_tick, count, ticks, reload_value).1,
            reload_value,
        ) == ticks,
{
    let p = period(reload_value);
    let m = tick_ring();
    let total = phase(sys_tick, reload_value) + ticks;
    let q = total / p;
    let r = total % p;
    lemma_fundamental_div_mod(total, p);
    assert(q * p == p * q) by (nonlinear_arith);
    assert(q < m) by (nonlinear_arith)
        requires q * p <= total, total < m * p, p > 0;
    assert(q >= 0) by (nonlinear_arith)
        requires total >= 0, p > 0, q == total / p;
    let c2 = (count as int + q) % m;
    if count as int + q < m {
        lemma_small_mod((count as int + q) as nat, m as nat);
        lemma_small_mod(q as nat, m as nat);
    } else {
        lemma_fundamental_div_mod_converse(count as int + q, m, 1, count as int + q - m);
        lemma_fundamental_div_mod_converse(q - m, m, -1, q);
    }
    assert((c2 - count as int) % m == q);
    assert(((reload_value as int - r) as u32) as int == reload_value as int - r);
    assert((c2 as u32) as int == c2);
}

} // verus!
