use scene_core::{
    Action, Condition, Entity, EntityStore, Location, SceneError, Target, Vec2, Decay, Friction,
    Anchor, Ratio, execute_action, eval_condition,
};

fn plain(id: &str, tags: &[&str]) -> Entity {
    Entity::new(
        id.to_string(),
        0,
        Vec2 { x: 10, y: 10 },
        Vec2 { x: 0, y: 0 },
        tags.iter().map(|t| t.to_string()).collect(),
        Vec2 { x: 0, y: 0 },
        Friction { x: Decay { num: 1, den: 1 }, y: Decay { num: 1, den: 1 } },
        0,
    )
}

fn by_id(id: &str) -> Target {
    Target::ById(id.to_string())
}

#[test]
fn insert_duplicate_id_fails() {
    let mut s = EntityStore::new();
    assert!(s.insert(plain("a", &[])).is_ok());
    assert_eq!(s.insert(plain("a", &[])), Err(SceneError::DuplicateId));
    assert_eq!(s.entities.len(), 1);
}

/// Two toggles of the same entity restore the original visibility.
#[test]
fn toggle_twice_restores_visibility() {
    let mut s = EntityStore::new();
    s.insert(plain("a", &[])).unwrap();
    let toggle = Action::Toggle { target: by_id("a") };
    assert!(s.entities[0].visible);
    execute_action(&mut s, &toggle).unwrap();
    assert!(!s.entities[0].visible);
    execute_action(&mut s, &toggle).unwrap();
    assert!(s.entities[0].visible);
}

/// A mutating action on a missing id is a silent no-op, not an error.
#[test]
fn missing_id_is_silent_noop() {
    let mut s = EntityStore::new();
    s.insert(plain("a", &[])).unwrap();
    let r = execute_action(
        &mut s,
        &Action::SetMomentum { target: by_id("ghost"), value: Vec2 { x: 5, y: 5 } },
    );
    assert_eq!(r, Ok(()));
    assert_eq!(s.entities[0].momentum, Vec2 { x: 0, y: 0 });
}

/// Binding an action to a tag carried by three entities mutates all three
/// in one dispatch, and nothing else.
#[test]
fn tag_fanout_hits_all_three() {
    let mut s = EntityStore::new();
    s.insert(plain("b1", &["background", "scroll"])).unwrap();
    s.insert(plain("b2", &["background"])).unwrap();
    s.insert(plain("p", &["player"])).unwrap();
    s.insert(plain("b3", &["background"])).unwrap();
    let v = Vec2 { x: -8, y: 0 };
    execute_action(
        &mut s,
        &Action::SetMomentum { target: Target::ByTag("background".to_string()), value: v },
    )
    .unwrap();
    assert_eq!(s.entities[0].momentum, v);
    assert_eq!(s.entities[1].momentum, v);
    assert_eq!(s.entities[3].momentum, v);
    assert_eq!(s.entities[2].momentum, Vec2 { x: 0, y: 0 });
}

/// Impulses add to the current momentum and stack across repeats;
/// overwrites replace it.
#[test]
fn apply_momentum_stacks() {
    let mut s = EntityStore::new();
    s.insert(plain("a", &[])).unwrap();
    let jump = Action::ApplyMomentum { target: by_id("a"), value: Vec2 { x: 0, y: -30 } };
    execute_action(&mut s, &jump).unwrap();
    execute_action(&mut s, &jump).unwrap();
    assert_eq!(s.entities[0].momentum, Vec2 { x: 0, y: -60 });
    execute_action(
        &mut s,
        &Action::SetMomentum { target: by_id("a"), value: Vec2 { x: 3, y: 4 } },
    )
    .unwrap();
    assert_eq!(s.entities[0].momentum, Vec2 { x: 3, y: 4 });
}

/// IsVisible on an id: true only when the entity exists and is visible.
#[test]
fn is_visible_by_id() {
    let mut s = EntityStore::new();
    s.insert(plain("a", &[])).unwrap();
    assert!(eval_condition(&s, &Condition::IsVisible(by_id("a"))));
    assert!(!eval_condition(&s, &Condition::IsVisible(by_id("ghost"))));
    execute_action(&mut s, &Action::Toggle { target: by_id("a") }).unwrap();
    assert!(!eval_condition(&s, &Condition::IsVisible(by_id("a"))));
}

/// IsVisible on a tag requires every carrier to be visible; with no
/// carriers it is vacuously true.
#[test]
fn is_visible_by_tag_is_universal() {
    let mut s = EntityStore::new();
    s.insert(plain("a", &["crowd"])).unwrap();
    s.insert(plain("b", &["crowd"])).unwrap();
    let cond = Condition::IsVisible(Target::ByTag("crowd".to_string()));
    assert!(eval_condition(&s, &cond));
    execute_action(&mut s, &Action::Toggle { target: by_id("b") }).unwrap();
    assert!(!eval_condition(&s, &cond));
    let empty = Condition::IsVisible(Target::ByTag("nobody".to_string()));
    assert!(eval_condition(&s, &empty));
}

/// And(false, X) short-circuits: the selected branch never runs, whatever
/// X would have said, so the observable side effect does not fire.
#[test]
fn conditional_short_circuit() {
    let mut s = EntityStore::new();
    s.insert(plain("a", &[])).unwrap();
    let cond = Condition::And(
        Box::new(Condition::IsVisible(by_id("ghost"))),
        Box::new(Condition::IsVisible(by_id("a"))),
    );
    assert!(!eval_condition(&s, &cond));
    execute_action(
        &mut s,
        &Action::Conditional {
            condition: cond,
            if_true: Box::new(Action::Toggle { target: by_id("a") }),
            if_false: None,
        },
    )
    .unwrap();
    // The side effect did not fire.
    assert!(s.entities[0].visible);
}

/// A conditional runs its false branch when one is present.
#[test]
fn conditional_false_branch() {
    let mut s = EntityStore::new();
    s.insert(plain("a", &[])).unwrap();
    execute_action(
        &mut s,
        &Action::Conditional {
            condition: Condition::IsVisible(by_id("ghost")),
            if_true: Box::new(Action::SetMomentum { target: by_id("a"), value: Vec2 { x: 1, y: 1 } }),
            if_false: Some(Box::new(Action::SetMomentum {
                target: by_id("a"),
                value: Vec2 { x: 2, y: 2 },
            })),
        },
    )
    .unwrap();
    assert_eq!(s.entities[0].momentum, Vec2 { x: 2, y: 2 });
}

/// Teleporting to an absolute location sets the top-left corner.
#[test]
fn teleport_absolute() {
    let mut s = EntityStore::new();
    s.insert(plain("a", &[])).unwrap();
    execute_action(
        &mut s,
        &Action::Teleport {
            target: by_id("a"),
            location: Location::Absolute(Vec2 { x: 77, y: -5 }),
        },
    )
    .unwrap();
    assert_eq!(s.entities[0].pos, Vec2 { x: 77, y: -5 });
}

/// Anchor round-trip: reference at (100, 200) sized (50, 80), anchor
/// (1/2, 1/2), zero offset. The anchor point is the center (125, 240),
/// and a zero-size mover lands exactly on it.
#[test]
fn teleport_anchor_center() {
    let mut s = EntityStore::new();
    let mut reference = plain("ref", &["mark"]);
    reference.pos = Vec2 { x: 100, y: 200 };
    reference.set_scaled_size(Vec2 { x: 50, y: 80 });
    s.insert(reference).unwrap();
    let mut mover = plain("m", &[]);
    mover.set_scaled_size(Vec2 { x: 0, y: 0 });
    s.insert(mover).unwrap();
    execute_action(
        &mut s,
        &Action::Teleport {
            target: by_id("m"),
            location: Location::OnTarget {
                target: by_id("ref"),
                anchor: Anchor {
                    x: Ratio { num: 1, den: 2 },
                    y: Ratio { num: 1, den: 2 },
                },
                offset: Vec2 { x: 0, y: 0 },
            },
        },
    )
    .unwrap();
    assert_eq!(s.entities[1].pos, Vec2 { x: 125, y: 240 });
}

/// An anchor of (-1/2, 1/2) lies strictly left of the reference's left
/// edge; a sized mover is centered on the point.
#[test]
fn teleport_anchor_outside_and_centered() {
    let mut s = EntityStore::new();
    let mut reference = plain("ref", &[]);
    reference.pos = Vec2 { x: 100, y: 200 };
    reference.set_scaled_size(Vec2 { x: 50, y: 80 });
    s.insert(reference).unwrap();
    let mut mover = plain("m", &[]);
    mover.set_scaled_size(Vec2 { x: 10, y: 20 });
    s.insert(mover).unwrap();
    execute_action(
        &mut s,
        &Action::Teleport {
            target: by_id("m"),
            location: Location::OnTarget {
                target: by_id("ref"),
                anchor: Anchor {
                    x: Ratio { num: -1, den: 2 },
                    y: Ratio { num: 1, den: 2 },
                },
                offset: Vec2 { x: 0, y: 0 },
            },
        },
    )
    .unwrap();
    // Point is (100 - 25, 200 + 40) = (75, 240); center the 10 x 20 mover.
    assert_eq!(s.entities[1].pos, Vec2 { x: 70, y: 230 });
    assert!(s.entities[1].pos.x + s.entities[1].scaled_size.x < 100);
}

/// An anchored teleport needs exactly one reference: none is NotFound,
/// several are AmbiguousTarget, and either way nothing moves.
#[test]
fn teleport_reference_errors() {
    let mut s = EntityStore::new();
    s.insert(plain("m", &[])).unwrap();
    s.insert(plain("t1", &["twin"])).unwrap();
    s.insert(plain("t2", &["twin"])).unwrap();
    let attempt = |s: &mut EntityStore, reference: Target| {
        execute_action(
            s,
            &Action::Teleport {
                target: by_id("m"),
                location: Location::OnTarget {
                    target: reference,
                    anchor: Anchor {
                        x: Ratio { num: 0, den: 1 },
                        y: Ratio { num: 0, den: 1 },
                    },
                    offset: Vec2 { x: 0, y: 0 },
                },
            },
        )
    };
    assert_eq!(attempt(&mut s, by_id("ghost")), Err(SceneError::NotFound));
    assert_eq!(
        attempt(&mut s, Target::ByTag("twin".to_string())),
        Err(SceneError::AmbiguousTarget)
    );
    assert_eq!(s.entities[0].pos, Vec2 { x: 0, y: 0 });
}

/// Resolution reflects live state: a missing id resolves to nothing.
#[test]
fn resolve_is_live() {
    let mut s = EntityStore::new();
    s.insert(plain("a", &["g"])).unwrap();
    s.insert(plain("b", &["g"])).unwrap();
    assert_eq!(s.resolve(&Target::ByTag("g".to_string())), vec![0, 1]);
    assert_eq!(s.resolve(&by_id("b")), vec![1]);
    assert!(s.resolve(&by_id("zzz")).is_empty());
    assert_eq!(s.resolve_ids(&Target::ByTag("g".to_string())), vec!["a", "b"]);
    assert!(s.resolve_ids(&by_id("zzz")).is_empty());
    assert!(s.get(&"a".to_string()).is_ok());
    assert_eq!(s.get(&"zzz".to_string()).err(), Some(SceneError::NotFound));
}

/// Exclusive access by id: writes through the reference land in the
/// store; a missing id reports the not-found error.
#[test]
fn get_mut_by_id() {
    let mut s = EntityStore::new();
    s.insert(plain("a", &[])).unwrap();
    s.insert(plain("b", &[])).unwrap();
    {
        let e = s.get_mut(&"b".to_string()).unwrap();
        e.pos = Vec2 { x: 9, y: 9 };
    }
    assert_eq!(s.entities[1].pos, Vec2 { x: 9, y: 9 });
    assert_eq!(s.entities[0].pos, Vec2 { x: 0, y: 0 });
    assert_eq!(s.get_mut(&"c".to_string()).err(), Some(SceneError::NotFound));
}
