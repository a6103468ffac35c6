use crate::animation::AnimationConfig;
use crate::interaction::State;
use crate::random::random_inclusive;
use crate::timer::Timer;
use vstd::prelude::*;

verus! {

/// The colours that the tree's light cycles through, in palette order.
#[derive(Clone, Copy, Debug, PartialEq, Eq, Structural)]
pub enum LightColor {
    Blue,
    Green,
    Red,
}

/// Milliseconds between two colour changes of the tree's light.
pub const COLOR_CHANGE_DELAY_MS: u64 = 1000;

/// The palette entry at `index`; every index past the second picks the last colour.
pub open spec fn color_at(index: usize) -> LightColor {
    if index == 0 {
        LightColor::Blue
    } else if index == 1 {
        LightColor::Green
    } else {
        LightColor::Red
    }
}

/// The two palette colours other than `c`, in palette order.
pub open spec fn others(c: LightColor) -> Seq<LightColor> {
    match c {
        LightColor::Blue => seq![LightColor::Green, LightColor::Red],
        LightColor::Green => seq![LightColor::Blue, LightColor::Red],
        LightColor::Red => seq![LightColor::Blue, LightColor::Green],
    }
}

pub fn select_color(index: usize) -> (r: LightColor)
    ensures
        r == color_at(index),
{
    if index == 0 {
        LightColor::Blue
    } else if index == 1 {
        LightColor::Green
    } else {
        LightColor::Red
    }
}

/// Picks a colour different from `current`: `draw` chooses between the other two,
/// by its parity.
pub fn other_color(current: LightColor, draw: usize) -> (r: LightColor)
    ensures
        r == others(current)[(draw % 2) as int],
        r != current,
{
    let second = draw % 2 == 1;
    match current {
        LightColor::Blue => if second {
            LightColor::Red
        } else {
            LightColor::Green
        },
        LightColor::Green => if second {
            LightColor::Red
        } else {
            LightColor::Blue
        },
        LightColor::Red => if second {
            LightColor::Green
        } else {
            LightColor::Blue
        },
    }
}

/// A random colour different from `current`, each of the other two equally likely.
pub fn next_color(current: LightColor) -> (r: LightColor)
    ensures
        r != current,
        others(current).contains(r),
{
    let draw = random_inclusive(0, 1);
    let r = other_color(current, draw);
    assert(others(current)[(draw % 2) as int] == r);
    r
}

/// The number of frames in `first..=last` other than `current`.
pub open spec fn other_frame_count(first: usize, last: usize, current: usize) -> int {
    if first <= current <= last {
        last - first
    } else {
        last - first + 1
    }
}

/// The frame of `first..=last` other than `current` at position `pick` of that
/// list, in sheet order.
pub open spec fn other_frame(first: usize, last: usize, current: usize, pick: int) -> int {
    if first <= current <= last && first + pick >= current {
        first + pick + 1
    } else {
        first + pick
    }
}

/// Whether `first..=last` holds a frame other than `current`.
pub open spec fn has_other_frame(first: usize, last: usize, current: usize) -> bool {
    first <= last && (first < last || !(first <= current <= last))
}

/// Picks a frame of `first..=last` other than `current`: the one at position
/// `draw` (modulo their number) of the other frames in sheet order.
pub fn other_frame_index(first: usize, last: usize, current: usize, draw: usize) -> (r: usize)
    requires
        has_other_frame(first, last, current),
    ensures
        r == other_frame(first, last, current, draw as int % other_frame_count(first, last, current)),
        first <= r <= last,
        r != current,
{
    let count = if first <= current && current <= last {
        last - first
    } else {
        last - first + 1
    };
    let k = first + draw % count;
    if first <= current && current <= last && k >= current {
        k + 1
    } else {
        k
    }
}

/// A random frame of `first..=last` other than `current`.
pub fn random_other_frame(first: usize, last: usize, current: usize) -> (r: usize)
    requires
        has_other_frame(first, last, current),
    ensures
        first <= r <= last,
        r != current,
{
    let count = if first <= current && current <= last {
        last - first
    } else {
        last - first + 1
    };
    let draw = random_inclusive(0, count - 1);
    other_frame_index(first, last, current, draw)
}

/// The tree's light colour and the timer that paces its changes.
#[derive(Clone, Copy, Debug, PartialEq, Eq, Structural)]
pub struct ColorCycle {
    pub timer: Timer,
    pub color: LightColor,
}

impl ColorCycle {
    /// A cycle that starts from `color` and changes it every `COLOR_CHANGE_DELAY_MS`.
    pub fn new(color: LightColor) -> (r: ColorCycle)
        ensures
            r.wf(),
            r.color == color,
            r.timer.repeating,
            r.timer.duration_ms == COLOR_CHANGE_DELAY_MS,
            r.timer.elapsed_ms == 0,
    {
        ColorCycle { timer: Timer::repeating(COLOR_CHANGE_DELAY_MS), color }
    }

    pub open spec fn wf(&self) -> bool {
        self.timer.wf()
    }

    /// Advances the cycle by `delta_ms` while the tree is in `state`, with `draw`
    /// as the random choice for a colour change. Nothing moves while the tree is
    /// off; when the timer finishes the colour changes to another one.
    pub fn step_with(&mut self, state: State, delta_ms: u64, draw: usize)
        requires
            old(self).wf(),
        ensures
            final(self).wf(),
            state == State::Off ==> *final(self) == *old(self),
            state == State::On ==> final(self).timer == old(self).timer.ticked(delta_ms),
            state == State::On && old(self).timer.finishes_within(delta_ms) ==> final(self).color == others(
                old(self).color,
            )[(draw % 2) as int],
            !(state == State::On && old(self).timer.finishes_within(delta_ms)) ==> final(self).color == old(
                self,
            ).color,
            final(self).color != old(self).color ==> state == State::On,
    {
        if state == State::On {
            if self.timer.tick(delta_ms) {
                self.color = other_color(self.color, draw);
            }
        }
    }

    /// Advances the cycle by `delta_ms` while the tree is in `state`, drawing a new
    /// colour at random when the timer finishes. A new colour always differs from
    /// the one before.
    pub fn step(&mut self, state: State, delta_ms: u64)
        requires
            old(self).wf(),
        ensures
            final(self).wf(),
            state == State::Off ==> *final(self) == *old(self),
            state == State::On ==> final(self).timer == old(self).timer.ticked(delta_ms),
            state == State::On && old(self).timer.finishes_within(delta_ms) ==> final(self).color != old(
                self,
            ).color,
            !(state == State::On && old(self).timer.finishes_within(delta_ms)) ==> final(self).color == old(
                self,
            ).color,
    {
        let draw = random_inclusive(0, 1);
        self.step_with(state, delta_ms, draw);
    }
}

/// Advances the sparkle animation of a tree in `state` that shows frame `index`,
/// with `draw` as the random choice of the next frame. An unlit tree does not
/// sparkle. When the frame's time is up a frame other than the current one is
/// shown and the frame timer restarts.
pub fn sparkle_step(config: &mut AnimationConfig, state: State, index: usize, delta_ms: u64, draw: usize) -> (r: usize)
    requires
        old(config).wf(),
        state == State::On ==> has_other_frame(old(config).first_index, old(config).last_index, index),
    ensures
        final(config).wf(),
        final(config).first_index == old(config).first_index,
        final(config).last_index == old(config).last_index,
        final(config).fps == old(config).fps,
        state == State::Off ==> r == index && *final(config) == *old(config),
        state == State::On && !old(config).frame_timer.finishes_within(delta_ms) ==> r == index
            && final(config).frame_timer == old(config).frame_timer.ticked(delta_ms),
        state == State::On && old(config).frame_timer.finishes_within(delta_ms) ==> r == other_frame(
            old(config).first_index,
            old(config).last_index,
            index,
            draw as int % other_frame_count(old(config).first_index, old(config).last_index, index),
        ) && final(config).frame_timer == Timer::fresh_once(crate::animation::frame_ms(old(config).fps)),
{
    if state == State::Off {
        return index;
    }
    if config.frame_timer.tick(delta_ms) {
        let next = other_frame_index(config.first_index, config.last_index, index, draw);
        config.restart();
        next
    } else {
        index
    }
}

/// Advances the sparkle animation of a tree in `state` that shows frame `index`,
/// choosing the next frame at random. A change of frame always shows a frame of
/// the sheet other than the current one.
pub fn sparkle(config: &mut AnimationConfig, state: State, index: usize, delta_ms: u64) -> (r: usize)
    requires
        old(config).wf(),
        state == State::On ==> has_other_frame(old(config).first_index, old(config).last_index, index),
    ensures
        final(config).wf(),
        final(config).first_index == old(config).first_index,
        final(config).last_index == old(config).last_index,
        final(config).fps == old(config).fps,
        state == State::Off ==> r == index && *final(config) == *old(config),
        state == State::On && !old(config).frame_timer.finishes_within(delta_ms) ==> r == index
            && final(config).frame_timer == old(config).frame_timer.ticked(delta_ms),
        state == State::On && old(config).frame_timer.finishes_within(delta_ms) ==> r != index
            && old(config).first_index <= r <= old(config).last_index
            && final(config).frame_timer == Timer::fresh_once(crate::animation::frame_ms(old(config).fps)),
{
    if state == State::Off {
        return index;
    }
    if config.frame_timer.tick(delta_ms) {
        let next = random_other_frame(config.first_index, config.last_index, index);
        config.restart();
        next
    } else {
        index
    }
}

} // verus!
