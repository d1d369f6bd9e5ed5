//! Timing source: elapsed time between readings of a free-running counter.
//!
//! The counter is 32 bits wide, counts ticks of a known frequency and wraps to
//! zero after its largest value. A [`Stopwatch`] remembers the reading at
//! which the current split began; the caller supplies each new reading.

use vstd::prelude::*;

verus! {

/// Number of ticks after which the counter shows the same value again.
pub const ROLLOVER: u64 = 0x1_0000_0000;

/// Nanoseconds in one second.
pub const NANOS_PER_SECOND: u64 = 1_000_000_000;

/// What the counter shows `t` ticks after it started from zero.
pub open spec fn counter_at(t: nat) -> u32 {
    (t % (ROLLOVER as nat)) as u32
}

/// Ticks that passed between the reading `origin` and the later reading
/// `now`, given that fewer than [`ROLLOVER`] ticks passed.
pub open spec fn ticks_between(origin: u32, now: u32) -> nat {
    if now >= origin {
        (now - origin) as nat
    } else {
        (now + ROLLOVER - origin) as nat
    }
}

/// Whole nanoseconds that `ticks` ticks of a counter running at
/// `frequency_hz` take.
pub open spec fn ticks_to_nanos(ticks: nat, frequency_hz: nat) -> nat {
    ticks * (NANOS_PER_SECOND as nat) / frequency_hz
}

/// What a stopwatch is: the reading at which the current split began and the
/// frequency of the counter.
pub struct Split {
    pub origin: u32,
    pub frequency_hz: u32,
}

impl Split {
    /// A counter ticks at a positive frequency.
    pub open spec fn wf(self) -> bool {
        self.frequency_hz > 0
    }

    /// Ticks from the beginning of the split to the reading `now`.
    pub open spec fn ticks_until(self, now: u32) -> nat {
        ticks_between(self.origin, now)
    }

    /// Whole nanoseconds from the beginning of the split to the reading `now`.
    pub open spec fn nanos_until(self, now: u32) -> nat {
        ticks_to_nanos(self.ticks_until(now), self.frequency_hz as nat)
    }

    /// The same counter with a split that begins at `now`.
    pub open spec fn rebased(self, now: u32) -> Split {
        Split { origin: now, frequency_hz: self.frequency_hz }
    }
}

/// A split timer over the tick counter.
pub struct Stopwatch {
    origin: u32,
    frequency_hz: u32,
}

impl View for Stopwatch {
    type V = Split;

    closed spec fn view(&self) -> Split {
        Split { origin: self.origin, frequency_hz: self.frequency_hz }
    }
}

impl Stopwatch {
    #[verifier::type_invariant]
    spec fn type_inv(self) -> bool {
        self@.wf()
    }

    /// A stopwatch for a counter of `frequency_hz` ticks per second, with the
    /// split beginning at reading zero. A frequency of zero measures nothing
    /// and is refused.
    pub fn new(frequency_hz: u32) -> (r: Option<Stopwatch>)
        ensures
            r is None <==> frequency_hz == 0,
            r matches Some(s) ==> s@ == (Split { origin: 0, frequency_hz }),
    {
        if frequency_hz == 0 {
            None
        } else {
            Some(Stopwatch { origin: 0, frequency_hz })
        }
    }

    /// Ticks per second of the counter; never zero.
    pub fn frequency_hz(&self) -> (f: u32)
        ensures
            f == self@.frequency_hz,
            self@.wf(),
    {
        proof {
            use_type_invariant(self);
        }
        self.frequency_hz
    }

    /// The counter reading at which the current split began.
    pub fn last(&self) -> (t: u32)
        ensures
            t == self@.origin,
    {
        self.origin
    }

    /// Begins a new split at the reading `now`.
    pub fn reset(&mut self, now: u32)
        ensures
            final(self)@ == old(self)@.rebased(now),
    {
        proof {
            use_type_invariant(&*self);
        }
        self.origin = now;
    }

    /// Ticks since the split began, whether or not the counter wrapped in
    /// between; the next split begins at `now`.
    pub fn split_ticks(&mut self, now: u32) -> (ticks: u32)
        ensures
            ticks == old(self)@.ticks_until(now),
            final(self)@ == old(self)@.rebased(now),
    {
        proof {
            use_type_invariant(&*self);
        }
        let ticks: u32 = now.wrapping_sub(self.origin);
        self.origin = now;
        ticks
    }

    /// Whole nanoseconds since the split began; the next split begins at
    /// `now`.
    pub fn split_time_ns(&mut self, now: u32) -> (nanos: u64)
        ensures
            nanos == old(self)@.nanos_until(now),
            final(self)@ == old(self)@.rebased(now),
    {
        proof {
            use_type_invariant(&*self);
        }
        let frequency: u64 = self.frequency_hz as u64;
        let ticks: u64 = self.split_ticks(now) as u64;
        ticks * NANOS_PER_SECOND / frequency
    }
}

/// Two readings taken less than one rollover period apart differ, wrap-safe,
/// by the number of ticks that passed between them, whether or not the counter
/// wrapped in between.
pub proof fn lemma_ticks_between_is_elapsed(t0: nat, t1: nat)
    requires
        t0 <= t1 < t0 + ROLLOVER,
    ensures
        ticks_between(counter_at(t0), counter_at(t1)) == t1 - t0,
{
    let m: nat = ROLLOVER as nat;
    vstd::arithmetic::div_mod::lemma_fundamental_div_mod(t0 as int, m as int);
    vstd::arithmetic::div_mod::lemma_fundamental_div_mod(t1 as int, m as int);
}

/// Splits add up: the ticks of two splits in a row are the ticks from the
/// first reading to the last.
pub proof fn lemma_splits_add_up(t0: nat, t1: nat, t2: nat)
    requires
        t0 <= t1 <= t2 < t0 + ROLLOVER,
    ensures
        ticks_between(counter_at(t0), counter_at(t1)) + ticks_between(
            counter_at(t1),
            counter_at(t2),
        ) == ticks_between(counter_at(t0), counter_at(t2)),
{
    lemma_ticks_between_is_elapsed(t0, t1);
    lemma_ticks_between_is_elapsed(t1, t2);
    lemma_ticks_between_is_elapsed(t0, t2);
}

/// Reading the counter rounds time down to whole ticks, so a split is off by
/// less than one tick: with time measured in a unit of which `per_tick` make
/// one tick, two readings taken at the times `u0` and `u1` differ by a number
/// of ticks that is less than one tick away from `u1 - u0`.
pub proof fn lemma_split_is_within_one_tick(per_tick: nat, u0: nat, u1: nat)
    requires
        per_tick > 0,
        u0 <= u1,
        u1 / per_tick < u0 / per_tick + ROLLOVER,
    ensures
        ({
            let ticks = ticks_between(counter_at(u0 / per_tick), counter_at(u1 / per_tick));
            (u1 - u0) - per_tick < ticks * per_tick < (u1 - u0) + per_tick
        }),
{
    let k: int = per_tick as int;
    let q0: int = u0 as int / k;
    let q1: int = u1 as int / k;
    vstd::arithmetic::div_mod::lemma_fundamental_div_mod(u0 as int, k);
    vstd::arithmetic::div_mod::lemma_fundamental_div_mod(u1 as int, k);
    vstd::arithmetic::div_mod::lemma_mod_bound(u0 as int, k);
    vstd::arithmetic::div_mod::lemma_mod_bound(u1 as int, k);
    vstd::arithmetic::div_mod::lemma_div_is_ordered(u0 as int, u1 as int, k);
    vstd::arithmetic::div_mod::lemma_div_pos_is_pos(u0 as int, k);
    lemma_ticks_between_is_elapsed(q0 as nat, q1 as nat);
    assert((q1 - q0) * k == k * q1 - k * q0) by (nonlinear_arith);
}

/// The nanosecond figure is the duration rounded down: it never exceeds the
/// duration and falls short of it by less than one nanosecond.
pub proof fn lemma_nanos_round_down(ticks: nat, frequency_hz: nat)
    requires
        frequency_hz > 0,
    ensures
        ticks_to_nanos(ticks, frequency_hz) * frequency_hz <= ticks * NANOS_PER_SECOND,
        ticks * NANOS_PER_SECOND < (ticks_to_nanos(ticks, frequency_hz) + 1) * frequency_hz,
{
    let x: int = (ticks * (NANOS_PER_SECOND as nat)) as int;
    let d: int = frequency_hz as int;
    vstd::arithmetic::div_mod::lemma_fundamental_div_mod(x, d);
    vstd::arithmetic::div_mod::lemma_mod_bound(x, d);
    assert((x / d) * d == d * (x / d)) by (nonlinear_arith);
    assert((x / d + 1) * d == d * (x / d) + d) by (nonlinear_arith);
}

/// The nanoseconds of less than a rollover period fit in 64 bits, whatever
/// the frequency.
pub proof fn lemma_nanos_fit(ticks: nat, frequency_hz: nat)
    requires
        ticks < ROLLOVER,
        frequency_hz > 0,
    ensures
        ticks_to_nanos(ticks, frequency_hz) <= ticks * NANOS_PER_SECOND < 0x4000_0000_0000_0000,
{
    let x: int = (ticks * (NANOS_PER_SECOND as nat)) as int;
    let d: int = frequency_hz as int;
    vstd::arithmetic::div_mod::lemma_div_is_ordered_by_denominator(x, 1, d);
}

} // verus!
