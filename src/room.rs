use crate::aabb::Point;
use crate::interaction::{Interactable, State};
use crate::scene::{Behavior, Scene};
use vstd::prelude::*;

verus! {

pub const ATTIC_LIGHT_ID: &'static str = "attic-light";

pub const CHAIR_ID: &'static str = "chair";

pub const TREE_ID: &'static str = "tree";

/// The room's interactables, all off and out of range: the attic light switch
/// (handle 0), the chair (handle 1) and the tree (handle 2). The room has no
/// interactor yet.
pub fn furnished_room() -> (r: Scene)
    ensures
        r.wf(),
        r.len() == 3,
        r.interactors@.len() == 0,
        r.interactables@[0].id@ == ATTIC_LIGHT_ID@,
        r.interactables@[1].id@ == CHAIR_ID@,
        r.interactables@[2].id@ == TREE_ID@,
        r.positions@ == seq![Point { x: 148i32, y: -50i32 }, Point { x: 70i32, y: -58i32 }, Point { x: -90i32, y: -62i32 }],
        r.interactables@[0].width == 3 && r.interactables@[0].height == 4,
        r.interactables@[0].sprite_width == 0 && r.interactables@[0].sprite_height == 0,
        r.interactables@[1].width == 17 && r.interactables@[1].height == 25,
        r.interactables@[1].sprite_width == 25 && r.interactables@[1].sprite_height == 25,
        r.interactables@[2].width == 28 && r.interactables@[2].height == 32,
        r.interactables@[2].sprite_width == 0 && r.interactables@[2].sprite_height == 0,
        r.behaviors@ == seq![Behavior::Switch, Behavior::Inert, Behavior::Tree],
        r.states@ == seq![State::Off, State::Off, State::Off],
        forall|i: int| 0 <= i < 3 ==> (#[trigger] r.interactables@[i]).may_highlight(),
        forall|i: int| 0 <= i < 3 ==> #[trigger] r.highlights@[i] is None,
        forall|i: int| 0 <= i < 3 ==> #[trigger] r.in_range@[i] is None,
{
    let mut scene = Scene::new();
    scene.add_interactable(
        Interactable::new(ATTIC_LIGHT_ID.to_owned(), 3, 4, 0, 0),
        Point::new(148, -50),
        State::Off,
        Behavior::Switch,
    );
    scene.add_interactable(
        Interactable::new(CHAIR_ID.to_owned(), 17, 25, 25, 25),
        Point::new(70, -58),
        State::Off,
        Behavior::Inert,
    );
    scene.add_interactable(
        Interactable::new(TREE_ID.to_owned(), 28, 32, 0, 0),
        Point::new(-90, -62),
        State::Off,
        Behavior::Tree,
    );
    assert(scene.positions@ =~= seq![Point { x: 148i32, y: -50i32 }, Point { x: 70i32, y: -58i32 }, Point { x: -90i32, y: -62i32 }]);
    assert(scene.behaviors@ =~= seq![Behavior::Switch, Behavior::Inert, Behavior::Tree]);
    assert(scene.states@ =~= seq![State::Off, State::Off, State::Off]);
    scene
}

} // verus!
