use vstd::prelude::*;

verus! {

/// A countdown in milliseconds. A one-shot timer finishes once and then stays
/// finished; a repeating timer wraps around each time it finishes.
#[derive(Clone, Copy, Debug, PartialEq, Eq, Structural)]
pub struct Timer {
    pub duration_ms: u64,
    pub elapsed_ms: u64,
    pub repeating: bool,
    pub finished: bool,
}

impl Timer {
    pub open spec fn wf(&self) -> bool {
        if self.repeating {
            self.duration_ms > 0 && self.elapsed_ms < self.duration_ms && !self.finished
        } else {
            self.elapsed_ms <= self.duration_ms && (self.finished ==> self.elapsed_ms == self.duration_ms)
        }
    }

    pub open spec fn fresh_once(duration_ms: u64) -> Timer {
        Timer { duration_ms, elapsed_ms: 0, repeating: false, finished: false }
    }

    /// A timer that finishes once, `duration_ms` after it starts.
    pub fn once(duration_ms: u64) -> (r: Timer)
        ensures
            r.wf(),
            r == Timer::fresh_once(duration_ms),
    {
        Timer { duration_ms, elapsed_ms: 0, repeating: false, finished: false }
    }

    /// A timer that finishes every `duration_ms`.
    pub fn repeating(duration_ms: u64) -> (r: Timer)
        requires
            duration_ms > 0,
        ensures
            r.wf(),
            r.duration_ms == duration_ms,
            r.elapsed_ms == 0,
            r.repeating,
            !r.finished,
    {
        Timer { duration_ms, elapsed_ms: 0, repeating: true, finished: false }
    }

    /// The timer after `delta` more milliseconds.
    pub open spec fn ticked(self, delta: u64) -> Timer {
        if self.repeating {
            Timer { elapsed_ms: ((self.elapsed_ms + delta) % (self.duration_ms as int)) as u64, ..self }
        } else if self.finished {
            self
        } else if self.elapsed_ms + delta >= self.duration_ms {
            Timer { elapsed_ms: self.duration_ms, finished: true, ..self }
        } else {
            Timer { elapsed_ms: (self.elapsed_ms + delta) as u64, ..self }
        }
    }

    /// Whether `delta` more milliseconds make the timer finish (again).
    pub open spec fn finishes_within(self, delta: u64) -> bool {
        !self.finished && self.elapsed_ms + delta >= self.duration_ms
    }

    /// Advances the timer by `delta_ms`; the result tells whether it finished during
    /// this step.
    pub fn tick(&mut self, delta_ms: u64) -> (just_finished: bool)
        requires
            old(self).wf(),
        ensures
            final(self).wf(),
            *final(self) == old(self).ticked(delta_ms),
            just_finished == old(self).finishes_within(delta_ms),
    {
        if self.repeating {
            let total = self.elapsed_ms as u128 + delta_ms as u128;
            let just = total >= self.duration_ms as u128;
            let wrapped = total % (self.duration_ms as u128);
            self.elapsed_ms = wrapped as u64;
            just
        } else if self.finished {
            false
        } else if delta_ms >= self.duration_ms - self.elapsed_ms {
            self.elapsed_ms = self.duration_ms;
            self.finished = true;
            true
        } else {
            self.elapsed_ms = self.elapsed_ms + delta_ms;
            false
        }
    }
}

} // verus!
