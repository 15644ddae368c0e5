use scene_core::{
    Action, CanvasMode, Decay, Entity, Friction, Scene, SceneError, Target, Trigger, Vec2,
    Location, Anchor, Ratio,
};

fn plain(id: &str, tags: &[&str]) -> Entity {
    Entity::new(
        id.to_string(),
        0,
        Vec2 { x: 10, y: 10 },
        Vec2 { x: 0, y: 0 },
        tags.iter().map(|t| t.to_string()).collect(),
        Vec2 { x: 0, y: 0 },
        Friction { x: Decay { num: 1, den: 1 }, y: Decay { num: 1, den: 1 } },
        0,
    )
}

fn by_id(id: &str) -> Target {
    Target::ById(id.to_string())
}

fn press(key: &str) -> Trigger {
    Trigger::KeyPress(key.to_string())
}

/// Within one frame, input dispatch completes before physics: a momentum
/// set by a key binding already moves the entity that same frame.
#[test]
fn dispatch_runs_before_physics() {
    let mut scene = Scene::new(CanvasMode::Landscape, Vec2 { x: 1000, y: 1000 });
    scene.add_game_object("e".to_string(), plain("e", &[])).unwrap();
    scene.add_event(
        press("d"),
        Action::SetMomentum { target: by_id("e"), value: Vec2 { x: 7, y: 0 } },
        by_id("e"),
    );
    scene.frame(&vec![press("d")], 0);
    assert_eq!(scene.store.entities[0].pos.x, 7);
    assert_eq!(scene.store.entities[0].momentum.x, 7);
    // Without the signal the momentum persists and keeps moving the entity.
    scene.frame(&vec![], 0);
    assert_eq!(scene.store.entities[0].pos.x, 14);
}

/// Bindings fire in registration order: the later binding wins when both
/// write the same field.
#[test]
fn bindings_fire_in_registration_order() {
    let mut scene = Scene::new(CanvasMode::Landscape, Vec2 { x: 1000, y: 1000 });
    scene.add_game_object("e".to_string(), plain("e", &[])).unwrap();
    scene.add_event(
        press("d"),
        Action::SetMomentum { target: by_id("e"), value: Vec2 { x: 1, y: 0 } },
        by_id("e"),
    );
    scene.add_event(
        press("d"),
        Action::SetMomentum { target: by_id("e"), value: Vec2 { x: 2, y: 0 } },
        by_id("e"),
    );
    scene.handle_signal(&press("d"));
    assert_eq!(scene.store.entities[0].momentum.x, 2);
}

/// A release binding does not fire on a press of the same key, and other
/// keys never fire it.
#[test]
fn edges_and_keys_are_distinguished() {
    let mut scene = Scene::new(CanvasMode::Landscape, Vec2 { x: 1000, y: 1000 });
    scene.add_game_object("e".to_string(), plain("e", &[])).unwrap();
    scene.add_event(
        Trigger::KeyRelease("w".to_string()),
        Action::SetMomentum { target: by_id("e"), value: Vec2 { x: 9, y: 9 } },
        by_id("e"),
    );
    scene.handle_signal(&press("w"));
    scene.handle_signal(&Trigger::KeyRelease("x".to_string()));
    scene.handle_signal(&Trigger::BoundaryCollision);
    assert_eq!(scene.store.entities[0].momentum, Vec2 { x: 0, y: 0 });
    scene.handle_signal(&Trigger::KeyRelease("w".to_string()));
    assert_eq!(scene.store.entities[0].momentum, Vec2 { x: 9, y: 9 });
}

/// Boundary-collision signals fire their own bindings.
#[test]
fn boundary_bindings_fire() {
    let mut scene = Scene::new(CanvasMode::Landscape, Vec2 { x: 1000, y: 1000 });
    scene.add_game_object("e".to_string(), plain("e", &[])).unwrap();
    scene.add_event(
        Trigger::BoundaryCollision,
        Action::Toggle { target: by_id("e") },
        by_id("e"),
    );
    scene.handle_signal(&Trigger::BoundaryCollision);
    assert!(!scene.store.entities[0].visible);
}

/// One failing binding is isolated: the remaining bindings of the same
/// trigger still execute.
#[test]
fn failing_binding_does_not_stop_the_rest() {
    let mut scene = Scene::new(CanvasMode::Landscape, Vec2 { x: 1000, y: 1000 });
    scene.add_game_object("e".to_string(), plain("e", &[])).unwrap();
    scene.add_event(
        press("d"),
        Action::Teleport {
            target: by_id("e"),
            location: Location::OnTarget {
                target: by_id("ghost"),
                anchor: Anchor {
                    x: Ratio { num: 0, den: 1 },
                    y: Ratio { num: 0, den: 1 },
                },
                offset: Vec2 { x: 0, y: 0 },
            },
        },
        by_id("e"),
    );
    scene.add_event(
        press("d"),
        Action::SetMomentum { target: by_id("e"), value: Vec2 { x: 3, y: 0 } },
        by_id("e"),
    );
    scene.handle_signal(&press("d"));
    assert_eq!(scene.store.entities[0].momentum.x, 3);
}

/// A periodic task runs every Nth tick with its own persistent counter.
#[test]
fn tick_task_runs_every_nth_frame() {
    let mut scene = Scene::new(CanvasMode::Landscape, Vec2 { x: 1000, y: 1000 });
    scene.add_game_object("e".to_string(), plain("e", &[])).unwrap();
    scene.add_tick_task(3, Action::Toggle { target: by_id("e") });
    for frame in 1..=9 {
        scene.frame(&vec![], 0);
        // The task fires on frames 3, 6 and 9; visibility is restored
        // after every even number of firings.
        let fired = frame / 3;
        assert_eq!(scene.store.entities[0].visible, fired % 2 == 0, "frame {frame}");
    }
    // 9 is a multiple of 3: the counter has just wrapped to zero.
    assert_eq!(scene.tasks[0].counter, 0);
}

/// Duplicate ids are rejected at scene construction.
#[test]
fn duplicate_game_object_rejected() {
    let mut scene = Scene::new(CanvasMode::Landscape, Vec2 { x: 1000, y: 1000 });
    scene.add_game_object("e".to_string(), plain("x", &[])).unwrap();
    let r = scene.add_game_object("e".to_string(), plain("y", &[]));
    assert_eq!(r, Err(SceneError::DuplicateId));
    assert_eq!(scene.store.entities.len(), 1);
}

/// The snapshot lists every entity in insertion order with position,
/// display size, displayed image and visibility.
#[test]
fn snapshot_reflects_entities() {
    let mut scene = Scene::new(CanvasMode::Landscape, Vec2 { x: 1000, y: 1000 });
    let mut a = plain("a", &[]);
    a.pos = Vec2 { x: 5, y: 6 };
    a.image = 42;
    scene.add_game_object("a".to_string(), a).unwrap();
    let mut b = plain("b", &[]);
    b.set_scaled_size(Vec2 { x: 30, y: 40 });
    b.visible = false;
    scene.add_game_object("b".to_string(), b).unwrap();
    let items = scene.snapshot();
    assert_eq!(items.len(), 2);
    assert_eq!(items[0].pos, Vec2 { x: 5, y: 6 });
    assert_eq!(items[0].image, 42);
    assert!(items[0].visible);
    assert_eq!(items[1].size, Vec2 { x: 30, y: 40 });
    assert!(!items[1].visible);
}
