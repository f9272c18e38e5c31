//! The clock that brings new obstacles: a repeating timer of three seconds,
//! which fires in each frame that carries it across the end of a period.

use vstd::prelude::*;
use vstd::arithmetic::div_mod::{
    lemma_basic_div,
    lemma_div_non_zero,
    lemma_fundamental_div_mod,
    lemma_fundamental_div_mod_converse,
    lemma_mod_bound,
};
use bevy::time::Timer;
use std::time::Duration;
use crate::score::Score;

verus! {

/// `bevy::time::Timer`, read and moved on through its methods alone.
#[verifier::external_type_specification]
#[verifier::external_body]
pub struct ExTimer(Timer);

/// What a timer holds: times in nanoseconds, and in `laps` the number of
/// periods that ended during the last tick.
pub struct TimerState {
    pub elapsed: nat,
    pub period: nat,
    pub laps: nat,
    pub repeating: bool,
    pub paused: bool,
}

/// What `timer` holds.
pub uninterp spec fn timer_state(timer: Timer) -> TimerState;

/// `bevy::time::Timer::new` on a whole number of seconds: a timer that has not
/// run yet and is not paused.
#[verifier::external_body]
fn timer_new(secs: u64, repeating: bool) -> (timer: Timer)
    ensures
        timer_state(timer) == (TimerState {
            elapsed: 0,
            period: secs as nat * 1_000_000_000,
            laps: 0,
            repeating,
            paused: false,
        }),
{
    Timer::new(Duration::from_secs(secs), repeating)
}

/// `bevy::time::Timer::tick` on a running, repeating timer: the time that has
/// passed is added, the periods that have ended are counted in 32 bits, and
/// that many periods are taken off the time again. The call does not panic, as
/// the period is not zero and the times stay far below what a `Duration` holds.
#[verifier::external_body]
fn timer_tick(timer: &mut Timer, delta_nanos: u64)
    requires
        timer_state(*old(timer)).repeating,
        !timer_state(*old(timer)).paused,
        timer_state(*old(timer)).period > 0,
        timer_state(*old(timer)).elapsed <= u64::MAX,
    ensures
        timer_state(*final(timer)) == ({
            let before = timer_state(*old(timer));
            let total = before.elapsed + delta_nanos;
            let laps = (total / before.period as int) % 0x1_0000_0000;
            TimerState { elapsed: (total - before.period * laps) as nat, laps: laps as nat, ..before }
        }),
    no_unwind
{
    timer.tick(Duration::from_nanos(delta_nanos));
}

/// `bevy::time::Timer::just_finished`: whether a period ended during the last
/// tick.
#[verifier::external_body]
fn timer_just_finished(timer: &Timer) -> (fired: bool)
    ensures
        fired == (timer_state(*timer).laps > 0),
{
    timer.just_finished()
}

/// Seconds between two pairs of obstacles.
pub const SPAWN_PERIOD_SECS: u64 = 3;

/// Nanoseconds between two pairs of obstacles.
pub const SPAWN_PERIOD_NANOS: u64 = SPAWN_PERIOD_SECS * 1_000_000_000;

/// The longest frame, in nanoseconds, that the clock takes: the longest whose
/// periods it can still count, which is `u32::MAX` of them.
pub const MAX_DELTA_NANOS: u64 = 0xFFFF_FFFF * SPAWN_PERIOD_NANOS;

/// The number of periods that end during a frame of `delta` nanoseconds, when
/// `elapsed` nanoseconds of the current period had passed before it.
pub open spec fn laps(elapsed: nat, delta: nat) -> nat {
    (elapsed + delta) / (SPAWN_PERIOD_NANOS as nat)
}

/// How much of the current period has passed after such a frame.
pub open spec fn carry(elapsed: nat, delta: nat) -> nat {
    (elapsed + delta) % (SPAWN_PERIOD_NANOS as nat)
}

/// Cutting a frame in two changes neither the number of periods that end nor
/// where the clock stands afterwards: no time is lost between frames.
pub proof fn lemma_frames_add_up(elapsed: nat, first: nat, second: nat)
    ensures
        laps(elapsed, first) + laps(carry(elapsed, first), second) == laps(elapsed, first + second),
        carry(carry(elapsed, first), second) == carry(elapsed, first + second),
{
    let p = SPAWN_PERIOD_NANOS as int;
    let a = (elapsed + first) as int;
    let b = (a % p) + second;
    lemma_fundamental_div_mod(a, p);
    lemma_fundamental_div_mod(b, p);
    lemma_mod_bound(b, p);
    let q = a / p + b / p;
    assert(a + second == q * p + b % p) by (nonlinear_arith)
        requires
            a == p * (a / p) + a % p,
            b == p * (b / p) + b % p,
            b == a % p + second,
            q == a / p + b / p,
    ;
    lemma_fundamental_div_mod_converse(a + second, p, q, b % p);
}

/// The clock of the obstacles.
pub struct SpawnNextObstacle {
    event_timer: Timer,
}

impl SpawnNextObstacle {
    #[verifier::type_invariant]
    spec fn running(&self) -> bool {
        let state = timer_state(self.event_timer);
        &&& state.repeating
        &&& !state.paused
        &&& state.period == SPAWN_PERIOD_NANOS
        &&& state.elapsed < SPAWN_PERIOD_NANOS
    }

    /// Nanoseconds of the current period that have passed.
    pub closed spec fn elapsed(&self) -> nat {
        timer_state(self.event_timer).elapsed
    }

    /// Whether a period ended during the last frame.
    pub closed spec fn fired(&self) -> bool {
        timer_state(self.event_timer).laps > 0
    }

    /// Lets a frame of `delta_nanos` nanoseconds pass, and says whether a
    /// period ended in it.
    pub fn tick(&mut self, delta_nanos: u64) -> (fired: bool)
        requires
            delta_nanos <= MAX_DELTA_NANOS,
        ensures
            fired == (laps(old(self).elapsed(), delta_nanos as nat) > 0),
            final(self).fired() == fired,
            final(self).elapsed() == carry(old(self).elapsed(), delta_nanos as nat),
    {
        proof {
            use_type_invariant(&*self);
            lemma_count_fits(self.elapsed() + delta_nanos);
        }
        timer_tick(&mut self.event_timer, delta_nanos);
        timer_just_finished(&self.event_timer)
    }
}

impl Default for SpawnNextObstacle {
    /// A clock that has not run yet.
    fn default() -> (clock: SpawnNextObstacle)
        ensures
            clock.elapsed() == 0,
            !clock.fired(),
    {
        SpawnNextObstacle { event_timer: timer_new(SPAWN_PERIOD_SECS, true) }
    }
}

/// Of a time below `2^32` periods: the whole periods in it fit in 32 bits, and
/// taking them off leaves less than a period.
proof fn lemma_count_fits(total: int)
    requires
        0 <= total < 0x1_0000_0000 * SPAWN_PERIOD_NANOS,
    ensures
        (total / (SPAWN_PERIOD_NANOS as int)) % 0x1_0000_0000 == total / (SPAWN_PERIOD_NANOS as int),
        total - SPAWN_PERIOD_NANOS * (total / (SPAWN_PERIOD_NANOS as int)) == total % (
        SPAWN_PERIOD_NANOS as int),
        0 <= total % (SPAWN_PERIOD_NANOS as int) < SPAWN_PERIOD_NANOS,
{
    let p = SPAWN_PERIOD_NANOS as int;
    lemma_fundamental_div_mod(total, p);
    lemma_mod_bound(total, p);
}

/// A period ends in a frame exactly when the frame reaches the period's end.
pub proof fn lemma_fires_at_period_end(elapsed: nat, delta: nat)
    ensures
        laps(elapsed, delta) > 0 <==> elapsed + delta >= SPAWN_PERIOD_NANOS,
{
    let p = SPAWN_PERIOD_NANOS as int;
    let total = (elapsed + delta) as int;
    if total >= p {
        lemma_div_non_zero(total, p);
    } else {
        lemma_basic_div(total, p);
    }
}

/// Lets the clock run for one frame and decides whether a new pair of obstacles
/// is due: when a period has ended, but not before the first point is scored.
pub fn spawn_timer_obstacles(timer: &mut SpawnNextObstacle, delta_nanos: u64, score: &Score) -> (spawn:
    bool)
    requires
        delta_nanos <= MAX_DELTA_NANOS,
    ensures
        spawn == (old(timer).elapsed() + delta_nanos >= SPAWN_PERIOD_NANOS && score.0 != 0),
        final(timer).fired() == (old(timer).elapsed() + delta_nanos >= SPAWN_PERIOD_NANOS),
        final(timer).elapsed() == carry(old(timer).elapsed(), delta_nanos as nat),
{
    proof {
        lemma_fires_at_period_end(timer.elapsed(), delta_nanos as nat);
    }
    let fired = timer.tick(delta_nanos);
    fired && score.0 != 0
}

} // verus!
