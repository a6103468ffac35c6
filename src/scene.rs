use crate::aabb::{aabb_overlap, boxes_overlap, Extent, Point};
use crate::interaction::{
    apply_trigger, triggered, Highlight, InRange, Interactable, InteractionEvent,
    Interactor, State,
};
use vstd::prelude::*;

verus! {

/// Which side effects an object has when its state changes.
#[derive(Clone, Copy, Debug, PartialEq, Eq, Structural)]
pub enum Behavior {
    /// Has a state, but no event switches it.
    Inert,
    /// A light switch: flickering light and a click sound while on.
    Switch,
    /// A tree: sparkle animation and a colour-cycling light while on.
    Tree,
}

/// What the host should do to an object whose state has just changed.
#[derive(Clone, Copy, Debug, PartialEq, Eq, Structural)]
pub struct Reaction {
    pub behavior: Behavior,
    /// The art to show: the art that belongs to this state.
    pub art: State,
    /// Whether the switch sound for this state plays.
    pub sound: bool,
    /// Whether the object's light is lit.
    pub light: bool,
    /// Whether the object's running effect (flicker, or colour cycle and sparkle) is active.
    pub animated: bool,
}

/// What the renderer does to an object's sprite this tick.
#[derive(Clone, Copy, Debug, PartialEq, Eq, Structural)]
pub enum Appearance {
    /// Leave the sprite as it is.
    Unchanged,
    /// Pulse the sprite: `elapsed_ms` since the highlight began, `size` its base size.
    Pulse { elapsed_ms: u64, size: Extent },
    /// Restore opaque white tint and the baseline size.
    Baseline,
}

pub open spec fn reaction_of(b: Behavior, s: State) -> Reaction {
    let on = s == State::On;
    match b {
        Behavior::Inert => Reaction { behavior: b, art: s, sound: false, light: false, animated: false },
        Behavior::Switch => Reaction { behavior: b, art: s, sound: true, light: on, animated: on },
        Behavior::Tree => Reaction { behavior: b, art: s, sound: false, light: on, animated: on },
    }
}

/// The side effects of an object with behaviour `b` that has just entered state `s`.
pub fn reaction(b: Behavior, s: State) -> (r: Reaction)
    ensures
        r == reaction_of(b, s),
{
    let on = s == State::On;
    match b {
        Behavior::Inert => Reaction { behavior: b, art: s, sound: false, light: false, animated: false },
        Behavior::Switch => Reaction { behavior: b, art: s, sound: true, light: on, animated: on },
        Behavior::Tree => Reaction { behavior: b, art: s, sound: false, light: on, animated: on },
    }
}

pub open spec fn responds(b: Behavior) -> bool {
    b != Behavior::Inert
}

/// The `InRange` marker an interactable carries after an overlap pass.
pub open spec fn next_in_range(it: Interactable, overlapping: bool) -> Option<InRange> {
    if overlapping {
        Some(InRange { id: it.id })
    } else {
        None
    }
}

/// The highlight an interactable carries after an overlap pass: a new one on
/// entering range while eligible and off, none after leaving, otherwise the old one.
pub open spec fn next_highlight(
    was_in_range: bool,
    overlapping: bool,
    it: Interactable,
    state: State,
    h: Option<Highlight>,
    now: u64,
) -> Option<Highlight> {
    if !overlapping {
        None
    } else if !was_in_range && it.may_highlight() && state == State::Off {
        Some(Highlight { elapsed_offset: now, size: Extent { width: it.sprite_width, height: it.sprite_height } })
    } else {
        h
    }
}

/// The highlight after a run of overlap passes, one per element of `overlaps`.
pub open spec fn highlight_run(
    was_in_range: bool,
    h: Option<Highlight>,
    it: Interactable,
    states: Seq<State>,
    overlaps: Seq<bool>,
    times: Seq<u64>,
) -> Option<Highlight>
    decreases overlaps.len(),
{
    if overlaps.len() == 0 {
        h
    } else {
        highlight_run(
            overlaps[0],
            next_highlight(was_in_range, overlaps[0], it, states[0], h, times[0]),
            it,
            states.drop_first(),
            overlaps.drop_first(),
            times.drop_first(),
        )
    }
}

/// The state of an object with id `id` after a sequence of events, in order.
pub open spec fn state_after(s: State, id: Seq<char>, events: Seq<InteractionEvent>) -> State
    decreases events.len(),
{
    if events.len() == 0 {
        s
    } else {
        triggered(state_after(s, id, events.drop_last()), id, events.last().id@)
    }
}

pub open spec fn elapsed_since(now: u64, start: u64) -> u64 {
    if now >= start {
        (now - start) as u64
    } else {
        0
    }
}

pub open spec fn appearance_of(h: Option<Highlight>, shown: bool, now: u64) -> Appearance {
    match h {
        Some(h) => Appearance::Pulse { elapsed_ms: elapsed_since(now, h.elapsed_offset), size: h.size },
        None => if shown {
            Appearance::Baseline
        } else {
            Appearance::Unchanged
        },
    }
}

/// An arena of entities. Interactable `i` has its components at index `i` of each
/// of the first group of vectors; interactor `j` at index `j` of the last two.
pub struct Scene {
    pub interactables: Vec<Interactable>,
    pub positions: Vec<Point>,
    pub states: Vec<State>,
    pub behaviors: Vec<Behavior>,
    pub in_range: Vec<Option<InRange>>,
    pub highlights: Vec<Option<Highlight>>,
    /// Whether the last render pass drew a highlight on the object.
    pub shown: Vec<bool>,
    pub interactors: Vec<Interactor>,
    pub interactor_positions: Vec<Point>,
}

impl Scene {
    pub open spec fn len(&self) -> nat {
        self.interactables@.len()
    }

    /// A highlight exists only while the object is in range, eligible and off.
    pub open spec fn highlight_allowed(&self, i: int) -> bool {
        self.highlights@[i] is Some ==> {
            &&& self.in_range@[i] is Some
            &&& self.interactables@[i].may_highlight()
            &&& self.states@[i] == State::Off
        }
    }

    pub open spec fn wf(&self) -> bool {
        &&& self.positions@.len() == self.len()
        &&& self.states@.len() == self.len()
        &&& self.behaviors@.len() == self.len()
        &&& self.in_range@.len() == self.len()
        &&& self.highlights@.len() == self.len()
        &&& self.shown@.len() == self.len()
        &&& self.interactor_positions@.len() == self.interactors@.len()
        &&& forall|i: int| 0 <= i < self.len() ==> #[trigger] self.highlight_allowed(i)
    }

    /// Whether interactor `j` overlaps interactable `i`.
    pub open spec fn pair_overlaps(&self, j: int, i: int) -> bool {
        boxes_overlap(
            self.interactor_positions@[j],
            self.interactors@[j].width as int,
            self.interactors@[j].height as int,
            self.positions@[i],
            self.interactables@[i].width as int,
            self.interactables@[i].height as int,
        )
    }

    /// Whether any interactor overlaps interactable `i`.
    pub open spec fn overlapping_now(&self, i: int) -> bool {
        exists|j: int| 0 <= j < self.interactors@.len() && #[trigger] self.pair_overlaps(j, i)
    }

    /// An empty scene.
    pub fn new() -> (r: Scene)
        ensures
            r.wf(),
            r.len() == 0,
            r.interactors@.len() == 0,
    {
        Scene {
            interactables: Vec::new(),
            positions: Vec::new(),
            states: Vec::new(),
            behaviors: Vec::new(),
            in_range: Vec::new(),
            highlights: Vec::new(),
            shown: Vec::new(),
            interactors: Vec::new(),
            interactor_positions: Vec::new(),
        }
    }

    /// Registers an interactable, out of range and without highlight, and returns its handle.
    pub fn add_interactable(&mut self, interactable: Interactable, position: Point, state: State, behavior: Behavior) -> (handle: usize)
        requires
            old(self).wf(),
        ensures
            final(self).wf(),
            handle == old(self).len(),
            final(self).interactables@ == old(self).interactables@.push(interactable),
            final(self).positions@ == old(self).positions@.push(position),
            final(self).states@ == old(self).states@.push(state),
            final(self).behaviors@ == old(self).behaviors@.push(behavior),
            final(self).in_range@ == old(self).in_range@.push(None),
            final(self).highlights@ == old(self).highlights@.push(None),
            final(self).shown@ == old(self).shown@.push(false),
            final(self).interactors@ == old(self).interactors@,
            final(self).interactor_positions@ == old(self).interactor_positions@,
    {
        let handle = self.interactables.len();
        self.interactables.push(interactable);
        self.positions.push(position);
        self.states.push(state);
        self.behaviors.push(behavior);
        self.in_range.push(None);
        self.highlights.push(None);
        self.shown.push(false);
        proof {
            assert forall|i: int| 0 <= i < self.len() implies #[trigger] self.highlight_allowed(i) by {
                if i < handle {
                    assert(old(self).highlight_allowed(i));
                }
            }
        }
        handle
    }

    /// Registers an interactor and returns its handle.
    pub fn add_interactor(&mut self, interactor: Interactor, position: Point) -> (handle: usize)
        requires
            old(self).wf(),
        ensures
            final(self).wf(),
            handle == old(self).interactors@.len(),
            final(self).interactors@ == old(self).interactors@.push(interactor),
            final(self).interactor_positions@ == old(self).interactor_positions@.push(position),
            final(self).interactables@ == old(self).interactables@,
            final(self).positions@ == old(self).positions@,
            final(self).states@ == old(self).states@,
            final(self).behaviors@ == old(self).behaviors@,
            final(self).in_range@ == old(self).in_range@,
            final(self).highlights@ == old(self).highlights@,
            final(self).shown@ == old(self).shown@,
    {
        let handle = self.interactors.len();
        self.interactors.push(interactor);
        self.interactor_positions.push(position);
        proof {
            assert forall|i: int| 0 <= i < self.len() implies #[trigger] self.highlight_allowed(i) by {
                assert(old(self).highlight_allowed(i));
            }
        }
        handle
    }

    /// Moves interactor `handle` to `position`.
    pub fn move_interactor(&mut self, handle: usize, position: Point)
        requires
            old(self).wf(),
            handle < old(self).interactors@.len(),
        ensures
            final(self).wf(),
            final(self).interactor_positions@ == old(self).interactor_positions@.update(handle as int, position),
            final(self).interactors@ == old(self).interactors@,
            final(self).interactables@ == old(self).interactables@,
            final(self).positions@ == old(self).positions@,
            final(self).states@ == old(self).states@,
            final(self).behaviors@ == old(self).behaviors@,
            final(self).in_range@ == old(self).in_range@,
            final(self).highlights@ == old(self).highlights@,
            final(self).shown@ == old(self).shown@,
    {
        self.interactor_positions.set(handle, position);
        proof {
            assert forall|i: int| 0 <= i < self.len() implies #[trigger] self.highlight_allowed(i) by {
                assert(old(self).highlight_allowed(i));
            }
        }
    }

    /// Whether any interactor overlaps interactable `i`.
    pub fn overlaps_any(&self, i: usize) -> (r: bool)
        requires
            self.wf(),
            i < self.len(),
        ensures
            r == self.overlapping_now(i as int),
    {
        let mut j: usize = 0;
        while j < self.interactors.len()
            invariant
                self.wf(),
                i < self.len(),
                j <= self.interactors@.len(),
                forall|k: int| 0 <= k < j ==> !#[trigger] self.pair_overlaps(k, i as int),
            decreases self.interactors@.len() - j,
        {
            let it = &self.interactables[i];
            if aabb_overlap(
                self.interactor_positions[j],
                self.interactors[j].width,
                self.interactors[j].height,
                self.positions[i],
                it.width,
                it.height,
            ) {
                assert(self.pair_overlaps(j as int, i as int));
                return true;
            }
            j += 1;
        }
        false
    }

    /// One overlap pass at scene time `now`: every interactable that some interactor
    /// overlaps is in range, every other one is out of range and loses its highlight,
    /// and one that has just come into range while eligible and off is highlighted.
    pub fn detect_overlaps(&mut self, now: u64)
        requires
            old(self).wf(),
        ensures
            final(self).wf(),
            forall|i: int|
                0 <= i < old(self).len() ==> #[trigger] final(self).in_range@[i] == next_in_range(
                    old(self).interactables@[i],
                    old(self).overlapping_now(i),
                ),
            forall|i: int|
                0 <= i < old(self).len() ==> #[trigger] final(self).highlights@[i] == next_highlight(
                    old(self).in_range@[i] is Some,
                    old(self).overlapping_now(i),
                    old(self).interactables@[i],
                    old(self).states@[i],
                    old(self).highlights@[i],
                    now,
                ),
            final(self).in_range@.len() == old(self).len(),
            final(self).highlights@.len() == old(self).len(),
            final(self).interactables@ == old(self).interactables@,
            final(self).positions@ == old(self).positions@,
            final(self).states@ == old(self).states@,
            final(self).behaviors@ == old(self).behaviors@,
            final(self).shown@ == old(self).shown@,
            final(self).interactors@ == old(self).interactors@,
            final(self).interactor_positions@ == old(self).interactor_positions@,
    {
        let ghost pre = *self;
        let n = self.interactables.len();
        let mut i: usize = 0;
        while i < n
            invariant
                self.wf(),
                pre.wf(),
                n == pre.len(),
                i <= n,
                self.in_range@.len() == n,
                self.highlights@.len() == n,
                self.interactables@ == pre.interactables@,
                self.positions@ == pre.positions@,
                self.states@ == pre.states@,
                self.behaviors@ == pre.behaviors@,
                self.shown@ == pre.shown@,
                self.interactors@ == pre.interactors@,
                self.interactor_positions@ == pre.interactor_positions@,
                forall|k: int|
                    0 <= k < i ==> #[trigger] self.in_range@[k] == next_in_range(
                        pre.interactables@[k],
                        pre.overlapping_now(k),
                    ),
                forall|k: int|
                    0 <= k < i ==> #[trigger] self.highlights@[k] == next_highlight(
                        pre.in_range@[k] is Some,
                        pre.overlapping_now(k),
                        pre.interactables@[k],
                        pre.states@[k],
                        pre.highlights@[k],
                        now,
                    ),
                forall|k: int| i <= k < n ==> #[trigger] self.in_range@[k] == pre.in_range@[k],
                forall|k: int| i <= k < n ==> #[trigger] self.highlights@[k] == pre.highlights@[k],
            decreases n - i,
        {
            let ghost cur = *self;
            let overlapping = self.overlaps_any(i);
            assert(overlapping == pre.overlapping_now(i as int)) by {
                if overlapping {
                    let j = choose|j: int| 0 <= j < self.interactors@.len() && #[trigger] self.pair_overlaps(j, i as int);
                    assert(pre.pair_overlaps(j, i as int));
                } else {
                    assert forall|j: int| 0 <= j < pre.interactors@.len() implies !#[trigger] pre.pair_overlaps(j, i as int) by {
                        assert(!self.pair_overlaps(j, i as int));
                    }
                }
            }
            let was_in_range = self.in_range[i].is_some();
            if overlapping {
                let it = &self.interactables[i];
                if !was_in_range && !it.highlighted && it.first && self.states[i] == State::Off {
                    let h = Highlight { elapsed_offset: now, size: it.sprite_size() };
                    self.highlights.set(i, Some(h));
                }
                let id = self.interactables[i].id.clone();
                self.in_range.set(i, Some(InRange { id }));
            } else {
                self.in_range.set(i, None);
                self.highlights.set(i, None);
            }
            proof {
                assert(pre.highlight_allowed(i as int));
                assert forall|k: int| 0 <= k < self.len() implies #[trigger] self.highlight_allowed(k) by {
                    if k != i {
                        assert(cur.highlight_allowed(k));
                    }
                }
            }
            i += 1;
        }
    }

    /// The state of object `i` of `self` after the events `evs`.
    pub open spec fn state_through(&self, i: int, evs: Seq<InteractionEvent>) -> State {
        if responds(self.behaviors@[i]) {
            state_after(self.states@[i], self.interactables@[i].id@, evs)
        } else {
            self.states@[i]
        }
    }

    /// Whether the events `evs` take object `i` of `self` from `Off` to `On`.
    pub open spec fn latched_by(&self, i: int, evs: Seq<InteractionEvent>) -> bool {
        self.states@[i] == State::Off && self.state_through(i, evs) == State::On
    }

    /// Delivers this tick's interaction events in order. Each event flips the state
    /// of every responsive object with a matching id. An object that is `On` after
    /// the events and was `Off` before them loses its highlight and is never
    /// highlighted again; one flipped and flipped back within the tick is unchanged. The result tells, for each
    /// object whose state differs from before, how it reacts to its new state.
    pub fn apply_triggers(&mut self, events: &Vec<InteractionEvent>) -> (changes: Vec<Option<Reaction>>)
        requires
            old(self).wf(),
        ensures
            final(self).wf(),
            final(self).states@.len() == old(self).len(),
            final(self).interactables@.len() == old(self).len(),
            final(self).highlights@.len() == old(self).len(),
            forall|i: int|
                0 <= i < old(self).len() ==> #[trigger] final(self).states@[i] == old(self).state_through(i, events@),
            forall|i: int|
                0 <= i < old(self).len() ==> #[trigger] final(self).interactables@[i] == if old(self).latched_by(i, events@) {
                    old(self).interactables@[i].latched()
                } else {
                    old(self).interactables@[i]
                },
            forall|i: int|
                0 <= i < old(self).len() ==> #[trigger] final(self).highlights@[i] == if old(self).latched_by(i, events@) {
                    None
                } else {
                    old(self).highlights@[i]
                },
            changes@.len() == old(self).len(),
            forall|i: int|
                0 <= i < old(self).len() ==> #[trigger] changes@[i] == if final(self).states@[i] != old(self).states@[i] {
                    Some(reaction_of(old(self).behaviors@[i], final(self).states@[i]))
                } else {
                    None
                },
            final(self).positions@ == old(self).positions@,
            final(self).behaviors@ == old(self).behaviors@,
            final(self).in_range@ == old(self).in_range@,
            final(self).shown@ == old(self).shown@,
            final(self).interactors@ == old(self).interactors@,
            final(self).interactor_positions@ == old(self).interactor_positions@,
    {
        let ghost pre = *self;
        let n = self.interactables.len();
        let mut before: Vec<State> = Vec::new();
        let mut i: usize = 0;
        while i < n
            invariant
                *self == pre,
                pre.wf(),
                n == pre.len(),
                i <= n,
                before@ == pre.states@.take(i as int),
            decreases n - i,
        {
            before.push(self.states[i]);
            assert(before@ =~= pre.states@.take(i + 1));
            i += 1;
        }
        assert(before@ =~= pre.states@);

        let mut j: usize = 0;
        while j < events.len()
            invariant
                pre.wf(),
                n == pre.len(),
                j <= events@.len(),
                self.states@.len() == n,
                self.interactables@ == pre.interactables@,
                self.highlights@ == pre.highlights@,
                self.positions@ == pre.positions@,
                self.behaviors@ == pre.behaviors@,
                self.in_range@ == pre.in_range@,
                self.shown@ == pre.shown@,
                self.interactors@ == pre.interactors@,
                self.interactor_positions@ == pre.interactor_positions@,
                forall|k: int| 0 <= k < n ==> #[trigger] self.states@[k] == pre.state_through(k, events@.take(j as int)),
            decreases events@.len() - j,
        {
            let event = &events[j];
            let ghost done = events@.take(j as int);
            let ghost next = events@.take(j + 1);
            assert(next.drop_last() =~= done);
            assert(next.last() == events@[j as int]);
            let mut i: usize = 0;
            while i < n
                invariant
                    pre.wf(),
                    n == pre.len(),
                    i <= n,
                    j < events@.len(),
                    *event == events@[j as int],
                    done == events@.take(j as int),
                    next == events@.take(j + 1),
                    next.drop_last() == done,
                    next.last() == events@[j as int],
                    self.states@.len() == n,
                    self.interactables@ == pre.interactables@,
                    self.highlights@ == pre.highlights@,
                    self.positions@ == pre.positions@,
                    self.behaviors@ == pre.behaviors@,
                    self.in_range@ == pre.in_range@,
                    self.shown@ == pre.shown@,
                    self.interactors@ == pre.interactors@,
                    self.interactor_positions@ == pre.interactor_positions@,
                    forall|k: int| 0 <= k < i ==> #[trigger] self.states@[k] == pre.state_through(k, next),
                    forall|k: int| i <= k < n ==> #[trigger] self.states@[k] == pre.state_through(k, done),
                decreases n - i,
            {
                if self.behaviors[i] != Behavior::Inert {
                    let s = apply_trigger(self.states[i], &self.interactables[i].id, event);
                    self.states.set(i, s);
                }
                i += 1;
            }
            j += 1;
        }
        assert(events@.take(events@.len() as int) =~= events@);

        let mut changes: Vec<Option<Reaction>> = Vec::new();
        let mut i: usize = 0;
        while i < n
            invariant
                pre.wf(),
                n == pre.len(),
                i <= n,
                before@ == pre.states@,
                self.states@.len() == n,
                self.interactables@.len() == n,
                self.highlights@.len() == n,
                self.positions@ == pre.positions@,
                self.behaviors@ == pre.behaviors@,
                self.in_range@ == pre.in_range@,
                self.shown@ == pre.shown@,
                self.interactors@ == pre.interactors@,
                self.interactor_positions@ == pre.interactor_positions@,
                forall|k: int| 0 <= k < n ==> #[trigger] self.states@[k] == pre.state_through(k, events@),
                forall|k: int|
                    0 <= k < i ==> #[trigger] self.interactables@[k] == if pre.latched_by(k, events@) {
                        pre.interactables@[k].latched()
                    } else {
                        pre.interactables@[k]
                    },
                forall|k: int|
                    0 <= k < i ==> #[trigger] self.highlights@[k] == if pre.latched_by(k, events@) {
                        None
                    } else {
                        pre.highlights@[k]
                    },
                forall|k: int| i <= k < n ==> #[trigger] self.interactables@[k] == pre.interactables@[k],
                forall|k: int| i <= k < n ==> #[trigger] self.highlights@[k] == pre.highlights@[k],
                changes@.len() == i,
                forall|k: int|
                    0 <= k < i ==> #[trigger] changes@[k] == if self.states@[k] != pre.states@[k] {
                        Some(reaction_of(pre.behaviors@[k], self.states@[k]))
                    } else {
                        None
                    },
            decreases n - i,
        {
            if self.states[i] != before[i] {
                if self.states[i] == State::On {
                    let latched = self.interactables[i].latch();
                    self.interactables.set(i, latched);
                    self.highlights.set(i, None);
                }
                changes.push(Some(reaction(self.behaviors[i], self.states[i])));
            } else {
                changes.push(None);
            }
            i += 1;
        }
        proof {
            assert forall|k: int| 0 <= k < self.len() implies #[trigger] self.highlight_allowed(k) by {
                assert(pre.highlight_allowed(k));
            }
        }
        changes
    }

    /// One render pass at scene time `now`: a highlighted object pulses, and an
    /// object that was drawn highlighted by the previous pass and has lost its
    /// highlight since is restored to its baseline look.
    pub fn render(&mut self, now: u64) -> (looks: Vec<Appearance>)
        requires
            old(self).wf(),
        ensures
            final(self).wf(),
            looks@.len() == old(self).len(),
            final(self).shown@.len() == old(self).len(),
            forall|i: int|
                0 <= i < old(self).len() ==> #[trigger] looks@[i] == appearance_of(
                    old(self).highlights@[i],
                    old(self).shown@[i],
                    now,
                ),
            forall|i: int|
                0 <= i < old(self).len() ==> #[trigger] final(self).shown@[i] == old(self).highlights@[i] is Some,
            final(self).interactables@ == old(self).interactables@,
            final(self).positions@ == old(self).positions@,
            final(self).states@ == old(self).states@,
            final(self).behaviors@ == old(self).behaviors@,
            final(self).in_range@ == old(self).in_range@,
            final(self).highlights@ == old(self).highlights@,
            final(self).interactors@ == old(self).interactors@,
            final(self).interactor_positions@ == old(self).interactor_positions@,
    {
        let ghost pre = *self;
        let n = self.interactables.len();
        let mut looks: Vec<Appearance> = Vec::new();
        let mut i: usize = 0;
        while i < n
            invariant
                pre.wf(),
                n == pre.len(),
                i <= n,
                looks@.len() == i,
                self.shown@.len() == n,
                self.interactables@ == pre.interactables@,
                self.positions@ == pre.positions@,
                self.states@ == pre.states@,
                self.behaviors@ == pre.behaviors@,
                self.in_range@ == pre.in_range@,
                self.highlights@ == pre.highlights@,
                self.interactors@ == pre.interactors@,
                self.interactor_positions@ == pre.interactor_positions@,
                forall|k: int|
                    0 <= k < i ==> #[trigger] looks@[k] == appearance_of(pre.highlights@[k], pre.shown@[k], now),
                forall|k: int| 0 <= k < i ==> #[trigger] self.shown@[k] == pre.highlights@[k] is Some,
                forall|k: int| i <= k < n ==> #[trigger] self.shown@[k] == pre.shown@[k],
            decreases n - i,
        {
            match self.highlights[i] {
                Some(h) => {
                    let elapsed_ms = if now >= h.elapsed_offset {
                        now - h.elapsed_offset
                    } else {
                        0
                    };
                    looks.push(Appearance::Pulse { elapsed_ms, size: h.size });
                    self.shown.set(i, true);
                },
                None => {
                    if self.shown[i] {
                        looks.push(Appearance::Baseline);
                    } else {
                        looks.push(Appearance::Unchanged);
                    }
                    self.shown.set(i, false);
                },
            }
            i += 1;
        }
        proof {
            assert forall|k: int| 0 <= k < self.len() implies #[trigger] self.highlight_allowed(k) by {
                assert(pre.highlight_allowed(k));
            }
        }
        looks
    }

    /// One simulation tick: this tick's events, then the overlap pass, then the
    /// render pass, all at scene time `now`.
    pub fn tick(&mut self, now: u64, events: &Vec<InteractionEvent>) -> (r: (Vec<Option<Reaction>>, Vec<Appearance>))
        requires
            old(self).wf(),
        ensures
            final(self).wf(),
            r.0@.len() == old(self).len(),
            r.1@.len() == old(self).len(),
            forall|i: int|
                0 <= i < old(self).len() ==> #[trigger] final(self).states@[i] == old(self).state_through(i, events@),
            forall|i: int|
                0 <= i < old(self).len() ==> #[trigger] final(self).in_range@[i] == next_in_range(
                    old(self).interactables@[i],
                    old(self).overlapping_now(i),
                ),
            forall|i: int|
                0 <= i < old(self).len() ==> #[trigger] final(self).interactables@[i] == if old(self).latched_by(i, events@) {
                    old(self).interactables@[i].latched()
                } else {
                    old(self).interactables@[i]
                },
            forall|i: int|
                0 <= i < old(self).len() ==> #[trigger] final(self).highlights@[i] == next_highlight(
                    old(self).in_range@[i] is Some,
                    old(self).overlapping_now(i),
                    final(self).interactables@[i],
                    final(self).states@[i],
                    if old(self).latched_by(i, events@) {
                        None
                    } else {
                        old(self).highlights@[i]
                    },
                    now,
                ),
            forall|i: int|
                0 <= i < old(self).len() ==> #[trigger] final(self).shown@[i] == final(self).highlights@[i] is Some,
            forall|i: int|
                0 <= i < old(self).len() ==> #[trigger] r.0@[i] == if final(self).states@[i] != old(self).states@[i] {
                    Some(reaction_of(old(self).behaviors@[i], final(self).states@[i]))
                } else {
                    None
                },
            forall|i: int|
                0 <= i < old(self).len() ==> #[trigger] r.1@[i] == appearance_of(
                    final(self).highlights@[i],
                    old(self).shown@[i],
                    now,
                ),
            final(self).positions@ == old(self).positions@,
            final(self).behaviors@ == old(self).behaviors@,
            final(self).interactors@ == old(self).interactors@,
            final(self).interactor_positions@ == old(self).interactor_positions@,
    {
        let ghost pre = *self;
        let changes = self.apply_triggers(events);
        let ghost mid = *self;
        self.detect_overlaps(now);
        let ghost aft = *self;
        let looks = self.render(now);
        proof {
            assert forall|i: int| 0 <= i < pre.len() implies mid.overlapping_now(i) == pre.overlapping_now(i) by {
                if pre.overlapping_now(i) {
                    let j = choose|j: int| 0 <= j < pre.interactors@.len() && #[trigger] pre.pair_overlaps(j, i);
                    assert(mid.pair_overlaps(j, i));
                } else {
                    assert forall|j: int| 0 <= j < mid.interactors@.len() implies !#[trigger] mid.pair_overlaps(j, i) by {
                        assert(!pre.pair_overlaps(j, i));
                    }
                }
            }
            assert forall|i: int| 0 <= i < pre.len() implies #[trigger] self.in_range@[i] == next_in_range(
                pre.interactables@[i],
                pre.overlapping_now(i),
            ) by {
                assert(mid.interactables@[i].id == pre.interactables@[i].id);
                assert(mid.overlapping_now(i) == pre.overlapping_now(i));
            }
        }
        (changes, looks)
    }
}

/// Presence of `InRange` after an overlap pass is exactly "some interactor
/// overlaps now", and it carries the object's own id.
pub proof fn lemma_in_range_tracks_overlap(it: Interactable, overlapping: bool)
    ensures
        next_in_range(it, overlapping) is Some == overlapping,
        overlapping ==> next_in_range(it, overlapping) == Some(InRange { id: it.id }),
{
}

/// A new highlight appears only on coming into range, and only for an eligible
/// object that is off. An object already in range keeps its highlight or loses
/// it, whatever its state: it never gains one.
pub proof fn lemma_highlight_only_on_entry(
    was_in_range: bool,
    overlapping: bool,
    it: Interactable,
    state: State,
    h: Option<Highlight>,
    now: u64,
)
    ensures
        next_highlight(was_in_range, overlapping, it, state, h, now) != h && next_highlight(
            was_in_range,
            overlapping,
            it,
            state,
            h,
            now,
        ) is Some ==> !was_in_range && overlapping && it.may_highlight() && state == State::Off,
        was_in_range ==> next_highlight(was_in_range, overlapping, it, state, h, now) == h || next_highlight(
            was_in_range,
            overlapping,
            it,
            state,
            h,
            now,
        ) is None,
{
}

/// An object that is off, has never been interacted with, and comes into range
/// gets a highlight that starts now and scales its sprite size.
pub proof fn lemma_entry_highlights(it: Interactable, h: Option<Highlight>, now: u64)
    requires
        !it.highlighted,
        it.first,
    ensures
        next_highlight(false, true, it, State::Off, h, now) == Some(
            Highlight { elapsed_offset: now, size: Extent { width: it.sprite_width, height: it.sprite_height } },
        ),
{
}

/// An object that is no longer eligible for a highlight, and has none, never gets
/// one again, however often it leaves and re-enters range and whatever its state.
pub proof fn lemma_latched_never_highlighted(
    was_in_range: bool,
    it: Interactable,
    states: Seq<State>,
    overlaps: Seq<bool>,
    times: Seq<u64>,
)
    requires
        !it.may_highlight(),
    ensures
        highlight_run(was_in_range, None, it, states, overlaps, times) is None,
    decreases overlaps.len(),
{
    if overlaps.len() > 0 {
        lemma_latched_never_highlighted(overlaps[0], it, states.drop_first(), overlaps.drop_first(), times.drop_first());
    }
}

/// An object once switched on stays ineligible for a highlight.
pub proof fn lemma_latch_is_permanent(it: Interactable)
    ensures
        !it.latched().may_highlight(),
        !it.latched().latched().may_highlight(),
        it.latched().id == it.id,
{
}

/// A render pass that finds an object without highlight, after the previous pass
/// drew it highlighted, restores its baseline look, whatever removed the highlight.
pub proof fn lemma_removed_highlight_resets(s: Scene, i: int, now: u64)
    requires
        s.wf(),
        0 <= i < s.len(),
        s.shown@[i],
        s.highlights@[i] is None,
    ensures
        appearance_of(s.highlights@[i], s.shown@[i], now) == Appearance::Baseline,
{
}

} // verus!
