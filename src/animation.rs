use crate::timer::Timer;
use vstd::prelude::*;

verus! {

/// Frame range and pace of a sprite-sheet animation.
#[derive(Clone, Copy, Debug, PartialEq, Eq, Structural)]
pub struct AnimationConfig {
    pub first_index: usize,
    pub last_index: usize,
    pub fps: u8,
    pub frame_timer: Timer,
}

/// How long one frame stays on screen at `fps` frames per second.
pub open spec fn frame_ms(fps: u8) -> u64 {
    (1000int / (fps as int)) as u64
}

/// The frame after `index` in sheet order; the index wraps at the top of its range.
pub open spec fn next_frame(index: usize) -> usize {
    if index < usize::MAX {
        (index + 1) as usize
    } else {
        0
    }
}

impl AnimationConfig {
    pub fn new(first: usize, last: usize, fps: u8) -> (r: AnimationConfig)
        requires
            fps > 0,
        ensures
            r.wf(),
            r.first_index == first,
            r.last_index == last,
            r.fps == fps,
            r.frame_timer == Timer::fresh_once(frame_ms(fps)),
    {
        AnimationConfig { first_index: first, last_index: last, fps, frame_timer: Self::timer_from_fps(fps) }
    }

    pub open spec fn wf(&self) -> bool {
        self.fps > 0 && self.frame_timer.wf()
    }

    /// A one-shot timer for one frame at `fps` frames per second.
    pub fn timer_from_fps(fps: u8) -> (r: Timer)
        requires
            fps > 0,
        ensures
            r.wf(),
            r == Timer::fresh_once(frame_ms(fps)),
    {
        Timer::once(1000 / (fps as u64))
    }

    /// The frame shown after `delta_ms` more milliseconds of a looping animation that
    /// shows frame `index` now. When the frame's time is up the animation moves to the
    /// next frame and restarts the frame timer; after the last frame it goes back to
    /// the first and leaves the timer finished, so the loop rests there until
    /// `restart` is called.
    pub fn advance(&mut self, index: usize, delta_ms: u64) -> (r: usize)
        requires
            old(self).wf(),
        ensures
            final(self).wf(),
            final(self).first_index == old(self).first_index,
            final(self).last_index == old(self).last_index,
            final(self).fps == old(self).fps,
            !old(self).frame_timer.finishes_within(delta_ms) ==> r == index && final(self).frame_timer
                == old(self).frame_timer.ticked(delta_ms),
            old(self).frame_timer.finishes_within(delta_ms) && index == old(self).last_index ==> r
                == old(self).first_index && final(self).frame_timer == old(self).frame_timer.ticked(delta_ms),
            old(self).frame_timer.finishes_within(delta_ms) && index != old(self).last_index ==> r == next_frame(
                index,
            ) && final(self).frame_timer == Timer::fresh_once(frame_ms(old(self).fps)),
    {
        if self.frame_timer.tick(delta_ms) {
            if index == self.last_index {
                self.first_index
            } else {
                self.frame_timer = Self::timer_from_fps(self.fps);
                if index < usize::MAX {
                    index + 1
                } else {
                    0
                }
            }
        } else {
            index
        }
    }

    /// Starts the current frame's time afresh.
    pub fn restart(&mut self)
        requires
            old(self).wf(),
        ensures
            final(self).wf(),
            *final(self) == (AnimationConfig { frame_timer: Timer::fresh_once(frame_ms(old(self).fps)), ..*old(self) }),
    {
        self.frame_timer = Self::timer_from_fps(self.fps);
    }
}

} // verus!
