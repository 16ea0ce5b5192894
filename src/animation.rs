use vstd::prelude::*;

verus! {

/// Longest duration a timer may be configured with, in milliseconds.
pub const MAX_DURATION_MS: u64 = 4_611_686_018_427_387_904;

/// Longest time step a timer may be advanced by at once, in milliseconds.
pub const MAX_DELTA_MS: u64 = 4_611_686_018_427_387_904;

/// Whether a timer starts over after finishing or stays finished.
#[derive(Clone, Copy, Debug, PartialEq, Eq, Structural)]
pub enum TimerMode {
    Once,
    Repeating,
}

/// Per-entity animation timer: accumulates elapsed time and reports each
/// crossing of its duration.
#[derive(Clone, Copy, Debug)]
pub struct AnimationTimer {
    pub duration: u64,
    pub elapsed: u64,
    pub mode: TimerMode,
    pub finished: bool,
    pub times_finished_this_tick: u64,
}

/// Range of sprite frames an animation cycles through.
#[derive(Clone, Copy, Debug)]
pub struct AnimationIndices {
    pub first: usize,
    pub last: usize,
}

impl AnimationTimer {
    pub open spec fn wf(self) -> bool {
        &&& 0 < self.duration <= MAX_DURATION_MS
        &&& self.elapsed <= self.duration
        &&& self.mode == TimerMode::Repeating ==> self.elapsed < self.duration
    }

    /// The timer after `delta` more milliseconds have elapsed.
    pub open spec fn ticked(self, delta: int) -> AnimationTimer {
        if self.mode == TimerMode::Once && self.finished {
            AnimationTimer { times_finished_this_tick: 0, ..self }
        } else {
            let e = self.elapsed + delta;
            if e >= self.duration {
                if self.mode == TimerMode::Repeating {
                    AnimationTimer {
                        elapsed: (e % self.duration as int) as u64,
                        finished: true,
                        times_finished_this_tick: (e / self.duration as int) as u64,
                        ..self
                    }
                } else {
                    AnimationTimer {
                        elapsed: self.duration,
                        finished: true,
                        times_finished_this_tick: 1,
                        ..self
                    }
                }
            } else {
                AnimationTimer {
                    elapsed: e as u64,
                    finished: false,
                    times_finished_this_tick: 0,
                    ..self
                }
            }
        }
    }

    pub open spec fn is_just_finished(self) -> bool {
        self.times_finished_this_tick > 0
    }

    pub open spec fn from_millis_spec(duration: u64, mode: TimerMode) -> AnimationTimer {
        AnimationTimer { duration, elapsed: 0, mode, finished: false, times_finished_this_tick: 0 }
    }

    /// A fresh timer of `duration` milliseconds.
    pub fn from_millis(duration: u64, mode: TimerMode) -> (r: AnimationTimer)
        requires
            0 < duration <= MAX_DURATION_MS,
        ensures
            r.wf(),
            r == AnimationTimer::from_millis_spec(duration, mode),
    {
        AnimationTimer { duration, elapsed: 0, mode, finished: false, times_finished_this_tick: 0 }
    }

    /// Advances the timer by `delta` milliseconds. A repeating timer wraps
    /// around its duration; a one-shot timer freezes once it has finished.
    pub fn tick(&mut self, delta: u64)
        requires
            old(self).wf(),
            delta <= MAX_DELTA_MS,
        ensures
            final(self).wf(),
            *final(self) == old(self).ticked(delta as int),
    {
        if self.mode == TimerMode::Once && self.finished {
            self.times_finished_this_tick = 0;
            return;
        }
        let e: u64 = self.elapsed + delta;
        if e >= self.duration {
            self.finished = true;
            if self.mode == TimerMode::Repeating {
                self.times_finished_this_tick = e / self.duration;
                self.elapsed = e % self.duration;
            } else {
                self.times_finished_this_tick = 1;
                self.elapsed = self.duration;
            }
        } else {
            self.finished = false;
            self.times_finished_this_tick = 0;
            self.elapsed = e;
        }
    }

    /// Whether the last `tick` crossed the duration.
    pub fn just_finished(&self) -> (r: bool)
        ensures
            r == self.is_just_finished(),
    {
        self.times_finished_this_tick > 0
    }
}

impl AnimationIndices {
    pub open spec fn wf(self) -> bool {
        self.last < usize::MAX
    }
}

/// The frame shown after `frame` in a cycle that ends at `last`.
pub open spec fn next_frame(frame: int, last: int) -> int {
    (frame + 1) % (last + 1)
}

/// Advances `timer` by `delta` milliseconds and steps `frame` once when the
/// timer has just finished.
pub fn animate(delta: u64, timer: &mut AnimationTimer, frame: &mut usize, indices: &AnimationIndices)
    requires
        old(timer).wf(),
        indices.wf(),
        *old(frame) <= indices.last,
        delta <= MAX_DELTA_MS,
    ensures
        final(timer).wf(),
        *final(timer) == old(timer).ticked(delta as int),
        final(timer).is_just_finished() ==> *final(frame) == next_frame(
            *old(frame) as int,
            indices.last as int,
        ),
        !final(timer).is_just_finished() ==> *final(frame) == *old(frame),
        *final(frame) <= indices.last,
{
    timer.tick(delta);
    if timer.just_finished() {
        *frame = (*frame + 1) % (indices.last + 1);
    }
}

} // verus!
