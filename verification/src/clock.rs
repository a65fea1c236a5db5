//! The animation clock: a repeating frame timer and the frame it shows.

use vstd::prelude::*;
use bevy::time::{Timer, TimerMode};
use std::time::Duration;
use crate::sheet::{frames_in_row, row_frames, row_start, SHEET_COLS, SHEET_ROWS};

verus! {

pub const MICROS_PER_SECOND: u64 = 1_000_000;

/// Microseconds that a frame is shown at `fps` frames per second; a rate
/// of 0 counts as 1.
pub open spec fn frame_period(fps: u32) -> int {
    if fps <= 1 {
        1_000_000
    } else {
        1_000_000int / (fps as int)
    }
}

/// Time on a repeating timer of the given period after `delta` more has
/// passed: what is left over once every full period is taken out.
pub open spec fn wrapped_elapsed(period: int, elapsed: int, delta: int) -> int {
    if period == 0 {
        0
    } else {
        (elapsed + delta) % period
    }
}

/// How often a repeating timer of the given period reports to have
/// finished while `delta` passes. The count is kept in 32 bits.
pub open spec fn times_finished(period: int, elapsed: int, delta: int) -> int {
    if period == 0 {
        0xffff_ffff
    } else {
        ((elapsed + delta) / period) % 0x1_0000_0000
    }
}

/// `bevy::time::Timer::tick` on a repeating, unpaused timer of duration
/// `period_us` that has `elapsed_us` on it, advanced by `delta_us`; all
/// three in microseconds. Returns the time then on the timer and
/// `times_finished_this_tick`. Trusted: the timer adds the delta, and if
/// the sum has reached the duration it keeps the remainder of the sum by
/// the duration and counts the quotient, cut to 32 bits; a duration of
/// zero always finishes, with a count of `u32::MAX` and nothing elapsed.
/// The bound on the period keeps the remainder, which the timer narrows to
/// 64 bits of nanoseconds, exact.
#[verifier::external_body]
fn repeating_timer_tick(period_us: u64, elapsed_us: u64, delta_us: u64) -> (r: (u64, u32))
    requires
        period_us * 1000 <= u64::MAX,
    ensures
        r.0 == wrapped_elapsed(period_us as int, elapsed_us as int, delta_us as int),
        r.1 == times_finished(period_us as int, elapsed_us as int, delta_us as int),
{
    let mut timer = Timer::new(Duration::from_micros(period_us), TimerMode::Repeating);
    timer.set_elapsed(Duration::from_micros(elapsed_us));
    timer.tick(Duration::from_micros(delta_us));
    (timer.elapsed().as_micros() as u64, timer.times_finished_this_tick())
}

/// The animation that plays: a row of the sheet, the frame shown, and the
/// timer that paces it.
#[derive(Clone, Copy, PartialEq, Eq, Debug)]
pub struct Anim {
    /// Atlas index of the row's first frame.
    pub start_index: usize,
    /// Number of frames in the row.
    pub len: usize,
    /// Atlas index of the frame shown.
    pub index: usize,
    /// Microseconds per frame.
    pub period: u64,
    /// Microseconds the current frame has been shown.
    pub elapsed: u64,
}

impl Anim {
    /// The limits within which the clock computes.
    pub open spec fn wf(self) -> bool {
        &&& self.period <= MICROS_PER_SECOND
        &&& self.start_index + self.len <= usize::MAX
    }

    /// Whether the frame shown belongs to the row that plays.
    pub open spec fn in_row(self) -> bool {
        self.start_index <= self.index < self.start_index + self.len
    }

    /// Whether the animation plays the given row of the sheet at the given rate.
    pub open spec fn plays(self, row: usize, fps: u32) -> bool {
        &&& self.start_index == row * SHEET_COLS
        &&& self.len == frames_in_row(row as int)
        &&& self.period == frame_period(fps)
    }

    /// The animation of a row from its first frame, with nothing on the timer.
    pub open spec fn started(start_index: usize, len: usize, fps: u32) -> Anim {
        Anim { start_index, len, index: start_index, period: frame_period(fps) as u64, elapsed: 0 }
    }

    /// Whether the timer finishes a period while `dt` microseconds pass.
    pub open spec fn fires(self, dt: u32) -> bool {
        times_finished(self.period as int, self.elapsed as int, dt as int) > 0
    }

    /// The frame after the one shown, wrapping at the end of the row; a
    /// frame outside the row counts as the row's first.
    pub open spec fn next_index(self) -> int
        recommends
            self.len > 0,
    {
        let local = if self.in_row() {
            self.index - self.start_index
        } else {
            0
        };
        self.start_index + (local + 1) % (self.len as int)
    }

    /// The animation after `dt` microseconds.
    pub open spec fn ticked(self, dt: u32) -> Anim {
        Anim {
            elapsed: wrapped_elapsed(self.period as int, self.elapsed as int, dt as int) as u64,
            index: if self.fires(dt) && self.len > 0 {
                self.next_index() as usize
            } else {
                self.index
            },
            ..self
        }
    }

    /// The animation after it was told to play `row` at `fps`: untouched if
    /// it plays that already, else started anew.
    pub open spec fn switched(self, row: usize, fps: u32) -> Anim {
        if self.plays(row, fps) {
            self
        } else {
            Anim::started((row * SHEET_COLS) as usize, frames_in_row(row as int) as usize, fps)
        }
    }

    /// The animation after the ticks `dts`, one after the other.
    pub open spec fn run(self, dts: Seq<u32>) -> Anim
        decreases dts.len(),
    {
        if dts.len() == 0 {
            self
        } else {
            self.ticked(dts[0]).run(dts.drop_first())
        }
    }

    /// An animation of `len` frames from `start_index` on, at `fps` frames
    /// per second.
    pub fn new(start_index: usize, len: usize, fps: u32) -> (anim: Anim)
        requires
            start_index + len <= usize::MAX,
        ensures
            anim == Anim::started(start_index, len, fps),
            anim.wf(),
            len > 0 ==> anim.in_row(),
    {
        Anim { start_index, len, index: start_index, period: period_of(fps), elapsed: 0 }
    }

    /// Changes row and rate only when they differ from what plays. On a
    /// change the timer starts anew and the row's first frame is shown at
    /// once.
    pub fn set_anim_if_changed(&mut self, row: usize, fps: u32)
        requires
            row < SHEET_ROWS,
        ensures
            *final(self) == old(self).switched(row, fps),
            final(self).plays(row, fps),
            final(self).wf(),
            !old(self).plays(row, fps) || old(self).in_row() ==> final(self).in_row(),
    {
        let start = row_start(row);
        let len = row_frames(row);
        let period = period_of(fps);
        let needs_change = self.start_index != start || self.len != len || self.period != period;
        if needs_change {
            self.start_index = start;
            self.len = len;
            self.period = period;
            self.elapsed = 0;
            self.index = start;
        }
    }

    /// Advances the timer by `dt` microseconds and, when it finishes a
    /// period, the frame by one within the row.
    pub fn animate_sprite(&mut self, dt: u32)
        requires
            old(self).wf(),
        ensures
            *final(self) == old(self).ticked(dt),
            final(self).wf(),
            old(self).in_row() ==> final(self).in_row(),
            old(self).fires(dt) && old(self).len > 0 ==> final(self).in_row(),
    {
        let (elapsed, times) = repeating_timer_tick(self.period, self.elapsed, dt as u64);
        self.elapsed = elapsed;
        if times > 0 && self.len > 0 {
            if self.index < self.start_index || self.index >= self.start_index + self.len {
                self.index = self.start_index;
            }
            let local = self.index - self.start_index;
            let next_local = if local >= self.len - 1 {
                0
            } else {
                local + 1
            };
            proof {
                let n = self.len as int;
                if local >= n - 1 {
                    assert((local + 1) % n == 0) by (nonlinear_arith)
                        requires
                            local + 1 == n,
                            n > 0,
                    ;
                } else {
                    assert((local + 1) % n == local + 1) by (nonlinear_arith)
                        requires
                            0 <= local + 1 < n,
                    ;
                }
            }
            self.index = self.start_index + next_local;
        }
    }
}

/// Microseconds per frame at `fps` frames per second.
pub fn period_of(fps: u32) -> (period: u64)
    ensures
        period == frame_period(fps),
        period <= MICROS_PER_SECOND,
{
    let rate: u64 = if fps <= 1 {
        1
    } else {
        fps as u64
    };
    MICROS_PER_SECOND / rate
}

/// Once a row plays and its frame is shown, the frame shown stays in the
/// row that plays, whatever ticks follow.
pub proof fn lemma_frame_stays_in_row(anim: Anim, dts: Seq<u32>)
    requires
        anim.wf(),
        anim.in_row(),
    ensures
        anim.run(dts).wf(),
        anim.run(dts).in_row(),
        anim.run(dts).start_index == anim.start_index,
        anim.run(dts).len == anim.len,
    decreases dts.len(),
{
    if dts.len() > 0 {
        lemma_tick_keeps_row(anim, dts[0]);
        lemma_frame_stays_in_row(anim.ticked(dts[0]), dts.drop_first());
    }
}

/// One tick leaves the frame in the row, and brings it there when the
/// timer fires.
pub proof fn lemma_tick_keeps_row(anim: Anim, dt: u32)
    requires
        anim.len > 0,
        anim.in_row() || anim.fires(dt),
        anim.start_index + anim.len <= usize::MAX,
    ensures
        anim.ticked(dt).in_row(),
{
    let n = anim.len as int;
    let local = if anim.in_row() {
        anim.index - anim.start_index
    } else {
        0
    };
    assert(0 <= (local + 1) % n < n) by (nonlinear_arith)
        requires
            n > 0,
    ;
}

} // verus!
