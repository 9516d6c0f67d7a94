//! Fade schedule arithmetic.
//!
//! A fade ramps a sink's volume from the level it had when the fade was
//! triggered to the level the cue asks for.  The ramp moves one volume unit
//! at a time, so it has `|initial - target|` steps, and the cue's duration
//! is divided evenly over those steps.  When the step count is zero the
//! duration is irrelevant: the single write jumps straight to the target.
//!
//! This module only computes the schedule.  Running it — sleeping between
//! steps and writing each volume to the live sink — is the caller's work.

use vstd::prelude::*;

verus! {

/// A computed volume ramp: the sequence of volumes to write and the delay
/// to wait before each write.
///
/// The ramp visits `from`, then each intermediate volume, then `to`;
/// `step_count()` is the number of moves, so `step_count() + 1` volumes are
/// written in all (the first write repeats the starting volume).
#[derive(Clone, Copy, PartialEq, Eq, Structural, Debug)]
pub struct FadePlan {
    /// Volume at the start of the ramp (0–100 scale).
    pub from: u8,
    /// Volume the ramp ends on.
    pub to: u8,
    /// Delay before each volume write, in microseconds.
    pub rate_micros: u64,
}

impl FadePlan {
    /// Number of one-unit volume moves the ramp makes.
    pub open spec fn spec_steps(self) -> int {
        if self.from <= self.to {
            self.to - self.from
        } else {
            self.from - self.to
        }
    }

    /// The volume written at position `i` of the ramp: volumes move
    /// monotonically from `from` towards `to`, one unit per step.
    pub open spec fn spec_volume_at(self, i: int) -> int {
        if self.from <= self.to {
            self.from + i
        } else {
            self.from - i
        }
    }

    pub fn steps(&self) -> (n: u8)
        ensures
            n == self.spec_steps(),
    {
        if self.from <= self.to {
            self.to - self.from
        } else {
            self.from - self.to
        }
    }

    /// The `i`-th volume of the ramp, for `i` from 0 through `steps()`.
    pub fn volume_at(&self, i: u8) -> (v: u8)
        requires
            i <= self.spec_steps(),
        ensures
            v == self.spec_volume_at(i as int),
            0 <= self.spec_volume_at(i as int) <= 255,
    {
        if self.from <= self.to {
            self.from + i
        } else {
            self.from - i
        }
    }

    /// Whether the sink must be stopped outright once the ramp completes:
    /// a fade down to silence releases the sink so that garbage collection
    /// can reclaim it.
    pub fn stops_sink(&self) -> (r: bool)
        ensures
            r == (self.to == 0),
    {
        self.to == 0
    }
}

/// Compute the ramp for a fade from the sink's present volume `initial`
/// to the cue's `target` volume over `duration_millis`.
///
/// The delay per step is the duration divided evenly over the
/// `|initial - target|` steps; a zero-step ramp keeps the whole duration
/// as its (unused) delay.
pub fn fade_plan(initial: u8, target: u8, duration_millis: u64) -> (p: FadePlan)
    requires
        duration_millis <= u64::MAX / 1000,
    ensures
        p.from == initial,
        p.to == target,
        p.spec_steps() == 0 ==> p.rate_micros == duration_millis * 1000,
        p.spec_steps() > 0 ==> p.rate_micros == duration_millis * 1000 / p.spec_steps(),
{
    let steps: u8 = if initial <= target {
        target - initial
    } else {
        initial - target
    };
    let total_micros: u64 = duration_millis * 1000;
    let rate_micros: u64 = if steps == 0 {
        total_micros
    } else {
        total_micros / (steps as u64)
    };
    FadePlan { from: initial, to: target, rate_micros }
}

/// The ramp starts at the sink's present volume and ends exactly on the
/// requested target, and it only reaches zero when silence was asked for:
/// a fade never stops a sink it was not ramping down to silence.
pub proof fn fade_plan_endpoints(p: FadePlan)
    ensures
        p.spec_volume_at(0) == p.from,
        p.spec_volume_at(p.spec_steps()) == p.to,
{
}

}
