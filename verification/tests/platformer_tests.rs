use scene_core::{Action, FrameSeq, MyApp, SceneAssets, Target, Trigger, Vec2};

fn assets() -> SceneAssets {
    SceneAssets {
        background_image: 1,
        blank_image: 2,
        idle: FrameSeq { first: 10, count: 4 },
        walking: FrameSeq { first: 20, count: 6 },
        running: FrameSeq { first: 30, count: 6 },
        jumping: FrameSeq { first: 40, count: 5 },
    }
}

fn press(key: &str) -> Trigger {
    Trigger::KeyPress(key.to_string())
}

fn release(key: &str) -> Trigger {
    Trigger::KeyRelease(key.to_string())
}

/// The assembled scene: five entities under their canvas ids, ten
/// bindings, a 4K landscape canvas in thousandths of a pixel.
#[test]
fn scene_layout() {
    let scene = MyApp::new(&assets());
    assert_eq!(scene.virtual_size, Vec2 { x: 3_840_000, y: 2_160_000 });
    assert_eq!(scene.store.entities.len(), 5);
    assert_eq!(scene.bindings.len(), 10);
    assert!(scene.tasks.is_empty());

    let ids: Vec<&str> = scene.store.entities.iter().map(|e| e.id.as_str()).collect();
    assert_eq!(ids, ["background1", "background2", "background3", "ground", "player"]);

    let bg2 = &scene.store.entities[1];
    assert_eq!(bg2.pos, Vec2 { x: 3_840_000, y: 0 });
    assert_eq!(bg2.scaled_size, Vec2 { x: 3_840_000, y: 2_160_000 });
    assert_eq!(bg2.gravity, 0);
    assert!(!bg2.platform);
    assert!(bg2.tags.iter().any(|t| t == "background"));

    let ground = &scene.store.entities[3];
    assert!(ground.platform);
    assert_eq!(ground.pos, Vec2 { x: -7_680_000, y: 1_810_000 });
    assert_eq!(ground.scaled_size, Vec2 { x: 38_400_000, y: 10_000 });

    let player = &scene.store.entities[4];
    assert_eq!(player.pos, Vec2 { x: 400_000, y: 1_480_000 });
    assert_eq!(player.gravity, 1200);
    assert_eq!(player.image, 10);
    let anim = player.animation.unwrap();
    assert_eq!(anim.seq, FrameSeq { first: 10, count: 4 });
    assert_eq!(anim.fps, 8);
}

/// The player starts standing exactly on the ground and stays there: its
/// bottom edge never sinks below the ground's surface and its vertical
/// momentum is zero at rest.
#[test]
fn player_rests_on_ground() {
    let mut scene = MyApp::new(&assets());
    for _ in 0..30 {
        scene.frame(&vec![], 0);
        let player = &scene.store.entities[4];
        let ground = &scene.store.entities[3];
        assert_eq!(player.pos.y + player.scaled_size.y, ground.pos.y);
        assert_eq!(player.momentum.y, 0);
    }
}

/// Pressing W switches the player to the walking animation and scrolls
/// everything tagged "background" (the three tiles and the ground) left
/// by 8 pixels per frame; releasing W stops the scroll and restores idle.
#[test]
fn walk_scrolls_background() {
    let mut scene = MyApp::new(&assets());
    scene.frame(&vec![press("w")], 0);
    assert_eq!(scene.store.entities[4].image, 20);
    for i in [0, 1, 2, 3] {
        assert_eq!(scene.store.entities[i].momentum.x, -8000, "entity {i}");
    }
    assert_eq!(scene.store.entities[0].pos.x, -8000);
    assert_eq!(scene.store.entities[3].pos.x, -7_688_000);
    // The player itself does not move horizontally.
    assert_eq!(scene.store.entities[4].pos.x, 400_000);

    scene.frame(&vec![release("w")], 0);
    assert_eq!(scene.store.entities[4].image, 10);
    for i in [0, 1, 2, 3] {
        assert_eq!(scene.store.entities[i].momentum.x, 0, "entity {i}");
    }
    // Position stays where the scroll left it.
    assert_eq!(scene.store.entities[0].pos.x, -8000);
}

/// Running scrolls faster than walking.
#[test]
fn run_scrolls_faster() {
    let mut scene = MyApp::new(&assets());
    scene.frame(&vec![press("r")], 0);
    assert_eq!(scene.store.entities[4].image, 30);
    assert_eq!(scene.store.entities[0].momentum.x, -20_000);
    assert_eq!(scene.store.entities[0].pos.x, -20_000);
}

/// Pressing A applies the upward jump impulse: the first frame lifts the
/// player by the impulse plus gravity, and friction decays the momentum.
#[test]
fn jump_impulse() {
    let mut scene = MyApp::new(&assets());
    scene.frame(&vec![press("a")], 0);
    let player = &scene.store.entities[4];
    assert_eq!(player.image, 40);
    // Momentum after dispatch: -30000. Gravity: -28800. The position
    // moves by that much; then friction keeps 98%: -28224.
    assert_eq!(player.pos.y, 1_480_000 - 28_800);
    assert_eq!(player.momentum.y, -28_224);
    // The jump arc comes back down to rest on the ground.
    let mut landed = false;
    for _ in 0..200 {
        scene.frame(&vec![], 0);
        let p = &scene.store.entities[4];
        assert!(p.pos.y + p.scaled_size.y <= 1_810_000);
        if p.pos.y + p.scaled_size.y == 1_810_000 && p.momentum.y == 0 {
            landed = true;
            break;
        }
    }
    assert!(landed, "player never landed");
}

/// Repeated jump presses stack their impulses.
#[test]
fn repeated_jumps_stack() {
    let mut scene = MyApp::new(&assets());
    // Two presses within one frame's signal batch.
    scene.frame(&vec![press("a"), press("a")], 0);
    let player = &scene.store.entities[4];
    // Momentum after dispatch: -60000; gravity: -58800; friction: 98%.
    assert_eq!(player.momentum.y, -58_800 * 98 / 100);
}

/// The jump binding targets the player by id, not the backgrounds.
#[test]
fn jump_binding_shape() {
    let scene = MyApp::new(&assets());
    let last = &scene.bindings[9];
    assert!(matches!(last.trigger, Trigger::KeyPress(ref k) if k == "a"));
    assert!(matches!(
        last.action,
        Action::ApplyMomentum { target: Target::ById(ref id), value: Vec2 { x: 0, y: -30_000 } }
            if id == "player"
    ));
}
