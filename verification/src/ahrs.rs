//! Attitude estimator: what one estimation cycle does, and in which order.
//!
//! A cycle reads one sample from the inertial sensor, measures the time since
//! the cycle before it, and feeds both to the fusion filter. The sensor and
//! the filter belong to the caller; [`AHRS`] owns the timing source and
//! decides, from what the sensor returned, whether the filter is to run and
//! with which time step.

use vstd::prelude::*;
use crate::chrono::{
    counter_at, lemma_nanos_fit, lemma_ticks_between_is_elapsed, ticks_to_nanos, Split, Stopwatch,
    ROLLOVER,
};

verus! {

/// Three components along the vehicle's axes.
#[derive(Debug, PartialEq)]
pub struct Vector3<T> {
    pub x: T,
    pub y: T,
    pub z: T,
}

/// One reading of the inertial sensor.
#[derive(Debug, PartialEq)]
pub struct RawSample<T> {
    pub accel: Vector3<T>,
    pub gyro: Vector3<T>,
}

/// What a successful cycle feeds to the fusion filter: the angular rate and
/// the acceleration as the sensor gave them, and the nanoseconds since the
/// cycle before.
#[derive(Debug, PartialEq)]
pub struct FilterInput<T> {
    pub gyro: (T, T, T),
    pub accel: (T, T, T),
    pub dt_ns: u64,
}

/// The components of a vector, in the order x, y, z.
pub fn vec_to_tuple<T: Copy>(inp: &Vector3<T>) -> (components: (T, T, T))
    ensures
        components == (inp.x, inp.y, inp.z),
{
    (inp.x, inp.y, inp.z)
}

/// What an estimator is: its timing source, and whether timing was started.
pub struct EstimatorState {
    pub clock: Split,
    pub started: bool,
}

impl EstimatorState {
    /// The estimator once timing is started at the reading `now`.
    pub open spec fn timed_from(self, now: u32) -> EstimatorState {
        EstimatorState { clock: self.clock.rebased(now), started: true }
    }

    /// What a cycle returns for the sensor's `reading`, taken at the counter
    /// reading `now`: the sample with its time step, or the sensor's error as
    /// it came.
    pub open spec fn reply<T, E>(self, reading: Result<RawSample<T>, E>, now: u32) -> Result<
        FilterInput<T>,
        E,
    > {
        match reading {
            Ok(sample) => Ok(
                FilterInput {
                    gyro: (sample.gyro.x, sample.gyro.y, sample.gyro.z),
                    accel: (sample.accel.x, sample.accel.y, sample.accel.z),
                    dt_ns: self.clock.nanos_until(now) as u64,
                },
            ),
            Err(error) => Err(error),
        }
    }

    /// The estimator after that cycle: a sample begins a new split at `now`,
    /// a failed read changes nothing.
    pub open spec fn after<T, E>(self, reading: Result<RawSample<T>, E>, now: u32) -> EstimatorState {
        match reading {
            Ok(_) => EstimatorState { clock: self.clock.rebased(now), started: self.started },
            Err(_) => self,
        }
    }
}

/// The attitude estimator's cycle control.
pub struct AHRS {
    clock: Stopwatch,
    started: bool,
}

impl View for AHRS {
    type V = EstimatorState;

    closed spec fn view(&self) -> EstimatorState {
        EstimatorState { clock: self.clock@, started: self.started }
    }
}

impl AHRS {
    /// An estimator over the timing source `timer`; timing is not started.
    pub fn create_calibrated(timer: Stopwatch) -> (ahrs: AHRS)
        ensures
            ahrs@ == (EstimatorState { clock: timer@, started: false }),
    {
        AHRS { clock: timer, started: false }
    }

    /// Starts timing: the first cycle measures its time step from `now`.
    pub fn setup_time(&mut self, now: u32)
        ensures
            final(self)@ == old(self)@.timed_from(now),
    {
        self.clock.reset(now);
        self.started = true;
    }

    /// Whether timing was started.
    pub fn is_started(&self) -> (started: bool)
        ensures
            started == self@.started,
    {
        self.started
    }

    /// Ticks per second of the timing source; never zero.
    pub fn frequency_hz(&self) -> (f: u32)
        ensures
            f == self@.clock.frequency_hz,
            f > 0,
    {
        self.clock.frequency_hz()
    }

    /// One estimation cycle, given what the sensor returned and the counter
    /// reading taken after the read.
    ///
    /// A sample is handed on for the filter with the time since the previous
    /// sample (or since timing was started), and the next time step is
    /// measured from `now`. A failed read is returned as it came and leaves
    /// the estimator untouched: the filter is not to run.
    pub fn estimate<T: Copy, E>(&mut self, reading: Result<RawSample<T>, E>, now: u32) -> (r:
        Result<FilterInput<T>, E>)
        requires
            old(self)@.started,
        ensures
            r == old(self)@.reply(reading, now),
            r matches Ok(input) ==> input.dt_ns == old(self)@.clock.nanos_until(now),
            final(self)@ == old(self)@.after(reading, now),
    {
        match reading {
            Ok(sample) => {
                let dt_ns: u64 = self.clock.split_time_ns(now);
                Ok(
                    FilterInput {
                        gyro: vec_to_tuple(&sample.gyro),
                        accel: vec_to_tuple(&sample.accel),
                        dt_ns,
                    },
                )
            },
            Err(error) => Err(error),
        }
    }
}

/// The time step of an estimate is the time since the estimate before it.
///
/// For two samples taken `t0` and `t1` ticks after the counter started, less
/// than a rollover period apart, the second estimate reports the nanoseconds
/// that `t1 - t0` ticks take, whether or not the counter wrapped in between.
pub proof fn lemma_dt_is_time_between_estimates<T, E>(
    e: EstimatorState,
    first: RawSample<T>,
    second: RawSample<T>,
    t0: nat,
    t1: nat,
)
    requires
        e.clock.wf(),
        t0 <= t1 < t0 + ROLLOVER,
    ensures
        e.after(Ok::<RawSample<T>, E>(first), counter_at(t0)).reply(
            Ok::<RawSample<T>, E>(second),
            counter_at(t1),
        ) matches Ok(input) && input.dt_ns == ticks_to_nanos(
            (t1 - t0) as nat,
            e.clock.frequency_hz as nat,
        ),
{
    lemma_ticks_between_is_elapsed(t0, t1);
    lemma_nanos_fit((t1 - t0) as nat, e.clock.frequency_hz as nat);
}

/// A cycle whose sensor read failed is as if it had not happened: the error
/// comes back unchanged, the estimator is what it was, and a later sample is
/// answered with a filter input, the same that it would have got without the
/// failure.
pub proof fn lemma_failed_cycle_changes_nothing<T, E>(
    e: EstimatorState,
    error: E,
    failed_at: u32,
    sample: RawSample<T>,
    now: u32,
)
    ensures
        e.reply(Err::<RawSample<T>, E>(error), failed_at) == Err::<FilterInput<T>, E>(error),
        e.after(Err::<RawSample<T>, E>(error), failed_at) == e,
        e.after(Err::<RawSample<T>, E>(error), failed_at).reply(
            Ok::<RawSample<T>, E>(sample),
            now,
        ) is Ok,
        e.after(Err::<RawSample<T>, E>(error), failed_at).reply(
            Ok::<RawSample<T>, E>(sample),
            now,
        ) == e.reply(Ok::<RawSample<T>, E>(sample), now),
{
}

} // verus!
