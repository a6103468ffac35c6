use crate::aabb::Extent;
use vstd::prelude::*;

verus! {

/// Marks an interactable that should pulse to draw attention. It records when the
/// highlight began and the sprite size that the pulse scales.
#[derive(Clone, Copy, Debug, PartialEq, Eq, Structural)]
pub struct Highlight {
    /// Milliseconds of scene time at which the highlight began.
    pub elapsed_offset: u64,
    pub size: Extent,
}

/// A mobile probe (the player) whose box is tested against interactables.
#[derive(Clone, Copy, Debug, PartialEq, Eq, Structural)]
pub struct Interactor {
    pub width: i32,
    pub height: i32,
}

/// A stationary object that can come into range and be activated.
#[derive(Clone, Debug)]
pub struct Interactable {
    /// Logical name that interaction events are routed by.
    pub id: String,
    pub height: i32,
    pub width: i32,
    pub sprite_height: i32,
    pub sprite_width: i32,
    /// Set once the object has been interacted with; it is never highlighted again.
    pub highlighted: bool,
    /// True until the object is first switched on.
    pub first: bool,
}

/// Present on an interactable while an interactor overlaps it.
#[derive(Clone, Debug)]
pub struct InRange {
    pub id: String,
}

/// Requests activation of the interactable with the given id.
#[derive(Clone, Debug)]
pub struct InteractionEvent {
    pub id: String,
}

/// Activation status of an interactable.
#[derive(Clone, Copy, Debug, PartialEq, Eq, Structural)]
pub enum State {
    Off,
    On,
}

impl Interactor {
    pub fn new(width: i32, height: i32) -> (r: Interactor)
        ensures
            r.width == width,
            r.height == height,
    {
        Interactor { width, height }
    }
}

impl Interactable {
    /// A fresh interactable: never interacted with, so eligible for a highlight.
    pub fn new(id: String, width: i32, height: i32, sprite_width: i32, sprite_height: i32) -> (r: Interactable)
        ensures
            r.id == id,
            r.width == width,
            r.height == height,
            r.sprite_width == sprite_width,
            r.sprite_height == sprite_height,
            !r.highlighted,
            r.first,
    {
        Interactable { id, height, width, sprite_height, sprite_width, highlighted: false, first: true }
    }

    /// Whether entering range may still highlight this object.
    pub open spec fn may_highlight(&self) -> bool {
        !self.highlighted && self.first
    }

    /// The same object after it has been interacted with.
    pub open spec fn latched(self) -> Interactable {
        Interactable { highlighted: true, first: false, ..self }
    }

    /// The size of the object's sprite, which a highlight scales.
    pub fn sprite_size(&self) -> (r: Extent)
        ensures
            r.width == self.sprite_width,
            r.height == self.sprite_height,
    {
        Extent { width: self.sprite_width, height: self.sprite_height }
    }

    /// Marks the object as interacted with: it will not be highlighted again.
    pub fn latch(&self) -> (r: Interactable)
        ensures
            r == self.latched(),
            !r.may_highlight(),
    {
        Interactable {
            id: self.id.clone(),
            height: self.height,
            width: self.width,
            sprite_height: self.sprite_height,
            sprite_width: self.sprite_width,
            highlighted: true,
            first: false,
        }
    }
}

impl InteractionEvent {
    pub fn new(id: String) -> (r: InteractionEvent)
        ensures
            r.id == id,
    {
        InteractionEvent { id }
    }
}

pub open spec fn flipped(s: State) -> State {
    match s {
        State::Off => State::On,
        State::On => State::Off,
    }
}

/// The state of an object with id `own_id` after a trigger for `event_id`.
pub open spec fn triggered(s: State, own_id: Seq<char>, event_id: Seq<char>) -> State {
    if own_id == event_id {
        flipped(s)
    } else {
        s
    }
}

impl State {
    /// The other state.
    pub fn toggled(self) -> (r: State)
        ensures
            r == flipped(self),
    {
        match self {
            State::Off => State::On,
            State::On => State::Off,
        }
    }
}

/// Applies one interaction event to an object with id `own_id`: a matching id
/// flips the state, any other id leaves it as it is.
pub fn apply_trigger(state: State, own_id: &String, event: &InteractionEvent) -> (r: State)
    ensures
        r == triggered(state, own_id@, event.id@),
{
    if *own_id == event.id {
        state.toggled()
    } else {
        state
    }
}

/// A matching trigger switches `Off` to `On`, a second one switches it back, and a
/// trigger for another id leaves the state unchanged.
pub proof fn lemma_trigger_cycle(own_id: Seq<char>, other_id: Seq<char>, s: State)
    requires
        own_id != other_id,
    ensures
        triggered(State::Off, own_id, own_id) == State::On,
        triggered(State::On, own_id, own_id) == State::Off,
        triggered(triggered(s, own_id, own_id), own_id, own_id) == s,
        triggered(s, own_id, other_id) == s,
{
}

} // verus!
