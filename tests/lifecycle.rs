use room_interaction::aabb::{Extent, Point};
use room_interaction::interaction::{apply_trigger, Highlight, Interactable, InteractionEvent, Interactor, State};
use room_interaction::room::{furnished_room, ATTIC_LIGHT_ID, CHAIR_ID, TREE_ID};
use room_interaction::scene::{reaction, Appearance, Behavior, Reaction, Scene};

fn events(ids: &[&str]) -> Vec<InteractionEvent> {
    ids.iter().map(|id| InteractionEvent::new(id.to_string())).collect()
}

/// A scene with one interactable "lamp" at (3, 0), 4 by 4, with an 8 by 6 sprite,
/// and one interactor, 4 by 4, at `player`.
fn lamp_scene(player: Point) -> Scene {
    let mut scene = Scene::new();
    scene.add_interactable(
        Interactable::new("lamp".to_string(), 4, 4, 8, 6),
        Point::new(3, 0),
        State::Off,
        Behavior::Switch,
    );
    scene.add_interactor(Interactor::new(4, 4), player);
    scene
}

#[test]
fn entering_range_highlights_and_switching_on_removes_it_for_good() {
    let mut scene = lamp_scene(Point::new(0, 0));
    let (_, looks) = scene.tick(100, &events(&[]));
    assert!(scene.in_range[0].is_some());
    assert_eq!(scene.highlights[0], Some(Highlight { elapsed_offset: 100, size: Extent::new(8, 6) }));
    assert_eq!(looks[0], Appearance::Pulse { elapsed_ms: 0, size: Extent::new(8, 6) });

    let (changes, looks) = scene.tick(200, &events(&["lamp"]));
    assert_eq!(scene.states[0], State::On);
    assert_eq!(scene.highlights[0], None);
    assert!(scene.interactables[0].highlighted);
    assert!(!scene.interactables[0].first);
    assert_eq!(looks[0], Appearance::Baseline);
    assert_eq!(changes[0], Some(reaction(Behavior::Switch, State::On)));

    // Leave, switch off, come back: no highlight any more.
    scene.move_interactor(0, Point::new(50, 0));
    scene.tick(300, &events(&["lamp"]));
    assert!(scene.in_range[0].is_none());
    assert_eq!(scene.states[0], State::Off);
    for round in 0..5u64 {
        scene.move_interactor(0, Point::new(0, 0));
        let (_, looks) = scene.tick(400 + 200 * round, &events(&[]));
        assert!(scene.in_range[0].is_some());
        assert_eq!(scene.highlights[0], None);
        assert_eq!(looks[0], Appearance::Unchanged);
        scene.move_interactor(0, Point::new(50, 0));
        scene.tick(500 + 200 * round, &events(&[]));
        assert!(scene.in_range[0].is_none());
    }
}

#[test]
fn in_range_follows_overlap_each_pass() {
    let mut scene = lamp_scene(Point::new(20, 20));
    let path = [(20, 20, false), (0, 0, true), (1, 1, true), (-10, 0, false), (-1, 0, true), (5, 4, true), (5, 5, false)];
    for (x, y, expected) in path.iter() {
        scene.move_interactor(0, Point::new(*x, *y));
        scene.detect_overlaps(0);
        assert_eq!(scene.in_range[0].is_some(), *expected);
        if let Some(r) = &scene.in_range[0] {
            assert_eq!(r.id, "lamp");
        }
        if !*expected {
            assert_eq!(scene.highlights[0], None);
        }
    }
}

#[test]
fn highlight_is_not_added_while_already_in_range() {
    let mut scene = lamp_scene(Point::new(0, 0));
    // Switched on before coming near: no highlight on entry.
    scene.move_interactor(0, Point::new(50, 0));
    scene.tick(0, &events(&["lamp"]));
    assert_eq!(scene.states[0], State::On);
    scene.move_interactor(0, Point::new(0, 0));
    scene.tick(10, &events(&[]));
    assert!(scene.in_range[0].is_some());
    assert_eq!(scene.highlights[0], None);
    // Switching off while in range does not add one either.
    scene.tick(20, &events(&["lamp"]));
    assert_eq!(scene.states[0], State::Off);
    scene.tick(30, &events(&[]));
    assert_eq!(scene.highlights[0], None);
}

#[test]
fn off_object_entering_range_is_highlighted_once_per_entry() {
    let mut scene = lamp_scene(Point::new(0, 0));
    scene.detect_overlaps(7);
    assert_eq!(scene.highlights[0], Some(Highlight { elapsed_offset: 7, size: Extent::new(8, 6) }));
    // Staying in range keeps the first highlight with its start time.
    scene.detect_overlaps(50);
    assert_eq!(scene.highlights[0], Some(Highlight { elapsed_offset: 7, size: Extent::new(8, 6) }));
    // Leaving removes it; re-entering while never interacted with starts a new one.
    scene.move_interactor(0, Point::new(40, 40));
    scene.detect_overlaps(60);
    assert_eq!(scene.highlights[0], None);
    scene.move_interactor(0, Point::new(0, 0));
    scene.detect_overlaps(70);
    assert_eq!(scene.highlights[0], Some(Highlight { elapsed_offset: 70, size: Extent::new(8, 6) }));
}

#[test]
fn removal_resets_on_next_render_whatever_removed_it() {
    let mut scene = lamp_scene(Point::new(0, 0));
    scene.detect_overlaps(1000);
    assert_eq!(scene.render(1250), vec![Appearance::Pulse { elapsed_ms: 250, size: Extent::new(8, 6) }]);
    // Removed by leaving range.
    scene.move_interactor(0, Point::new(30, 0));
    scene.detect_overlaps(1300);
    assert_eq!(scene.render(1300), vec![Appearance::Baseline]);
    assert_eq!(scene.render(1400), vec![Appearance::Unchanged]);
    // Removed by switching on.
    scene.move_interactor(0, Point::new(0, 0));
    scene.detect_overlaps(1500);
    assert_eq!(scene.render(1500), vec![Appearance::Pulse { elapsed_ms: 0, size: Extent::new(8, 6) }]);
    scene.apply_triggers(&events(&["lamp"]));
    assert_eq!(scene.render(1600), vec![Appearance::Baseline]);
    assert_eq!(scene.render(1700), vec![Appearance::Unchanged]);
}

#[test]
fn render_before_highlight_start_reports_zero_elapsed() {
    let mut scene = lamp_scene(Point::new(0, 0));
    scene.detect_overlaps(500);
    assert_eq!(scene.render(400), vec![Appearance::Pulse { elapsed_ms: 0, size: Extent::new(8, 6) }]);
}

#[test]
fn any_of_several_interactors_keeps_object_in_range() {
    let mut scene = lamp_scene(Point::new(0, 0));
    scene.add_interactor(Interactor::new(2, 2), Point::new(100, 100));
    scene.detect_overlaps(0);
    assert!(scene.in_range[0].is_some());
    scene.move_interactor(0, Point::new(-100, 0));
    scene.move_interactor(1, Point::new(3, 3));
    scene.detect_overlaps(1);
    assert!(scene.in_range[0].is_some());
    scene.move_interactor(1, Point::new(3, 30));
    scene.detect_overlaps(2);
    assert!(scene.in_range[0].is_none());
}

#[test]
fn triggers_flip_matching_objects_only() {
    let mut scene = furnished_room();
    let changes = scene.apply_triggers(&events(&[TREE_ID, "nothing-here", CHAIR_ID]));
    assert_eq!(scene.states, vec![State::Off, State::Off, State::On]);
    assert_eq!(changes, vec![None, None, Some(reaction(Behavior::Tree, State::On))]);

    let changes = scene.apply_triggers(&events(&[ATTIC_LIGHT_ID, TREE_ID]));
    assert_eq!(scene.states, vec![State::On, State::Off, State::Off]);
    assert_eq!(
        changes,
        vec![Some(reaction(Behavior::Switch, State::On)), None, Some(reaction(Behavior::Tree, State::Off))]
    );
    // Switched on at some point: both are latched.
    assert!(scene.interactables[0].highlighted);
    assert!(!scene.interactables[2].first);
    assert!(!scene.interactables[1].highlighted);

    // Two triggers in one tick cancel out and report no change.
    let changes = scene.apply_triggers(&events(&[ATTIC_LIGHT_ID, ATTIC_LIGHT_ID]));
    assert_eq!(scene.states[0], State::On);
    assert_eq!(changes, vec![None, None, None]);
}

#[test]
fn trigger_state_machine_cycles() {
    let id = "tree".to_string();
    let hit = InteractionEvent::new("tree".to_string());
    let miss = InteractionEvent::new("chair".to_string());
    assert_eq!(apply_trigger(State::Off, &id, &hit), State::On);
    assert_eq!(apply_trigger(State::On, &id, &hit), State::Off);
    assert_eq!(apply_trigger(apply_trigger(State::Off, &id, &hit), &id, &hit), State::Off);
    assert_eq!(apply_trigger(State::Off, &id, &miss), State::Off);
    assert_eq!(apply_trigger(State::On, &id, &miss), State::On);
    assert_eq!(State::Off.toggled(), State::On);
    assert_eq!(State::On.toggled(), State::Off);
}

#[test]
fn reactions_per_behavior() {
    assert_eq!(
        reaction(Behavior::Switch, State::On),
        Reaction { behavior: Behavior::Switch, art: State::On, sound: true, light: true, animated: true }
    );
    assert_eq!(
        reaction(Behavior::Switch, State::Off),
        Reaction { behavior: Behavior::Switch, art: State::Off, sound: true, light: false, animated: false }
    );
    assert_eq!(
        reaction(Behavior::Tree, State::On),
        Reaction { behavior: Behavior::Tree, art: State::On, sound: false, light: true, animated: true }
    );
    assert_eq!(
        reaction(Behavior::Tree, State::Off),
        Reaction { behavior: Behavior::Tree, art: State::Off, sound: false, light: false, animated: false }
    );
    assert_eq!(
        reaction(Behavior::Inert, State::On),
        Reaction { behavior: Behavior::Inert, art: State::On, sound: false, light: false, animated: false }
    );
}

#[test]
fn furnished_room_layout() {
    let scene = furnished_room();
    assert_eq!(scene.interactables.len(), 3);
    assert_eq!(scene.interactables[0].id, "attic-light");
    assert_eq!(scene.interactables[1].id, "chair");
    assert_eq!(scene.interactables[2].id, "tree");
    assert_eq!(scene.positions, vec![Point::new(148, -50), Point::new(70, -58), Point::new(-90, -62)]);
    assert_eq!(scene.behaviors, vec![Behavior::Switch, Behavior::Inert, Behavior::Tree]);
    assert!(scene.interactors.is_empty());
}

#[test]
fn player_walking_up_to_the_chair() {
    let mut scene = furnished_room();
    scene.add_interactor(Interactor::new(16, 40), Point::new(0, -50));
    scene.tick(0, &events(&[]));
    assert!(scene.in_range.iter().all(|r| r.is_none()));
    // Chair spans x in [61.5, 78.5]; a 16 wide player at 55 spans [47, 63].
    scene.move_interactor(0, Point::new(55, -50));
    let (_, looks) = scene.tick(16, &events(&[]));
    assert!(scene.in_range[1].is_some());
    assert_eq!(looks[1], Appearance::Pulse { elapsed_ms: 0, size: Extent::new(25, 25) });
    // The chair never switches, so it stays highlighted while the player stays.
    scene.tick(32, &events(&[CHAIR_ID]));
    assert_eq!(scene.states[1], State::Off);
    assert!(scene.highlights[1].is_some());
}

#[test]
fn on_and_off_within_one_tick_does_not_latch() {
    let mut scene = lamp_scene(Point::new(0, 0));
    scene.detect_overlaps(10);
    assert!(scene.highlights[0].is_some());
    let changes = scene.apply_triggers(&events(&["lamp", "lamp"]));
    assert_eq!(changes, vec![None]);
    assert_eq!(scene.states[0], State::Off);
    assert!(!scene.interactables[0].highlighted);
    assert!(scene.interactables[0].first);
    assert_eq!(scene.highlights[0], Some(Highlight { elapsed_offset: 10, size: Extent::new(8, 6) }));
}

#[test]
fn furnished_room_geometry() {
    let scene = furnished_room();
    let sizes: Vec<(i32, i32, i32, i32)> = scene
        .interactables
        .iter()
        .map(|it| (it.width, it.height, it.sprite_width, it.sprite_height))
        .collect();
    assert_eq!(sizes, vec![(3, 4, 0, 0), (17, 25, 25, 25), (28, 32, 0, 0)]);
}
