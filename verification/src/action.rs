//! Conditions, locations and actions, and their interpreter over the
//! entity store.

use vstd::prelude::*;
use crate::geom::{Vec2, Anchor, Ratio};
use vstd::arithmetic::div_mod::lemma_fundamental_div_mod;
use crate::entity::{Animation, Entity, FrameSeq};
use crate::num::{sat64, scale_floor, floor_scale_i128, clamp_i128, sat_add64, sat_sub64, half64};
use crate::store::{
    EntityStore, SceneError, Target, target_matches, spec_resolve, has_id, ids_unique,
    lemma_resolved_upto_complete,
};

verus! {

/// Where a teleport puts its targets: a literal top-left coordinate, or a
/// point placed relative to another live entity's bounding box, on which
/// each moved entity is centered.
#[derive(Debug)]
pub enum Location {
    Absolute(Vec2),
    OnTarget { target: Target, anchor: Anchor, offset: Vec2 },
}

/// A boolean predicate over live entity state.
#[derive(Debug)]
pub enum Condition {
    /// For an id target: the entity exists and is visible. For a tag
    /// target: every entity carrying the tag is visible, vacuously true
    /// when none does.
    IsVisible(Target),
    /// Short-circuiting conjunction: the right side is not evaluated when
    /// the left side is already false.
    And(Box<Condition>, Box<Condition>),
}

/// A mutation applied, at execution time, to every entity its target then
/// resolves to.
#[derive(Debug)]
pub enum Action {
    /// Replace the attached animation, reset playback and display the new
    /// first frame immediately.
    SetAnimation { target: Target, seq: FrameSeq, fps: u32 },
    /// Overwrite the momentum.
    SetMomentum { target: Target, value: Vec2 },
    /// Add an impulse to the momentum; repeated impulses stack.
    ApplyMomentum { target: Target, value: Vec2 },
    /// Flip visibility; momentum and position are untouched.
    Toggle { target: Target },
    /// Set the position per a resolved location.
    Teleport { target: Target, location: Location },
    /// Evaluate the condition, then run the matching branch, if present.
    Conditional { condition: Condition, if_true: Box<Action>, if_false: Option<Box<Action>> },
}

pub open spec fn location_wf(l: Location) -> bool {
    match l {
        Location::Absolute(_) => true,
        Location::OnTarget { anchor, .. } => anchor.wf(),
    }
}

pub open spec fn action_wf(a: Action) -> bool
    decreases a,
{
    match a {
        Action::SetAnimation { seq, fps, .. } => seq.wf() && 0 < fps,
        Action::Teleport { location, .. } => location_wf(location),
        Action::Conditional { if_true, if_false, .. } => action_wf(*if_true) && match if_false {
            Some(b) => action_wf(*b),
            None => true,
        },
        _ => true,
    }
}

/// Every entity currently carrying the tag is visible; vacuously true when
/// none does.
fn all_tagged_visible(store: &EntityStore, tag: &String) -> (r: bool)
    ensures
        r == (forall|i: int|
            0 <= i < store.entities@.len() && (#[trigger] store.entities@[i]).spec_has_tag(tag@)
                ==> store.entities@[i].visible),
{
    let n: usize = store.len();
    let mut i: usize = 0;
    while i < n
        invariant
            i <= n,
            n == store.entities@.len(),
            forall|j: int|
                0 <= j < i && (#[trigger] store.entities@[j]).spec_has_tag(tag@)
                    ==> store.entities@[j].visible,
        decreases n - i,
    {
        if store.entities[i].has_tag(tag) && !store.entities[i].visible {
            proof {
                assert(store.entities@[i as int].spec_has_tag(tag@) && !store.entities@[i as int].visible);
            }
            return false;
        }
        i += 1;
    }
    true
}

/// The meaning of a condition over the stored entities.
pub open spec fn spec_eval(s: Seq<Entity>, c: Condition) -> bool
    decreases c,
{
    match c {
        Condition::IsVisible(t) => match t {
            Target::ById(id) => exists|i: int|
                0 <= i < s.len() && (#[trigger] s[i]).id@ == id@ && s[i].visible,
            Target::ByTag(tag) => forall|i: int|
                0 <= i < s.len() && (#[trigger] s[i]).spec_has_tag(tag@) ==> s[i].visible,
        },
        Condition::And(a, b) => spec_eval(s, *a) && spec_eval(s, *b),
    }
}

/// Evaluate a condition against the live store; `And` short-circuits, so
/// its right side is never examined when the left side is false.
pub fn eval_condition(store: &EntityStore, c: &Condition) -> (r: bool)
    requires
        store.wf(),
    ensures
        r == spec_eval(store.entities@, *c),
    decreases *c,
{
    match c {
        Condition::IsVisible(t) => {
            match t {
                Target::ById(id) => {
                    match store.find_index(id) {
                        Some(i) => {
                            let vis: bool = store.entities[i].visible;
                            proof {
                                let s = store.entities@;
                                if vis {
                                    assert(s[i as int].id@ == id@ && s[i as int].visible);
                                }
                                if !vis {
                                    assert forall|j: int|
                                        0 <= j < s.len() && (#[trigger] s[j]).id@ == id@ implies
                                        !s[j].visible by {
                                        if j != i as int {
                                            assert(s[i as int].id@ != s[j].id@);
                                        }
                                    };
                                }
                            }
                            vis
                        },
                        None => {
                            proof {
                                assert(!has_id(store.entities@, id@));
                            }
                            false
                        },
                    }
                },
                Target::ByTag(tag) => all_tagged_visible(store, tag),
            }
        },
        Condition::And(a, b) => {
            if !eval_condition(store, &**a) {
                false
            } else {
                eval_condition(store, &**b)
            }
        },
    }
}

/// Why a location fails to denote a point, if it does: an anchored
/// location must resolve to exactly one reference entity.
pub open spec fn located_err(s: Seq<Entity>, l: Location) -> Option<SceneError> {
    match l {
        Location::Absolute(_) => None,
        Location::OnTarget { target, .. } => {
            let n = spec_resolve(s, target).len();
            if n == 0 {
                Some(SceneError::NotFound)
            } else if n > 1 {
                Some(SceneError::AmbiguousTarget)
            } else {
                None
            }
        },
    }
}

/// The anchor point of a reference entity, plus offset, per axis:
/// `pos + floor(anchor * scaled_size) + offset`, clamped to `i64`.
pub open spec fn anchor_point(e: Entity, a: Anchor, off: Vec2) -> Vec2 {
    Vec2 {
        x: sat64(
            e.pos.x + scale_floor(e.scaled_size.x as int, a.x.num as int, a.x.den as int) + off.x,
        ) as i64,
        y: sat64(
            e.pos.y + scale_floor(e.scaled_size.y as int, a.y.num as int, a.y.den as int) + off.y,
        ) as i64,
    }
}

/// The point a well-formed location denotes.
pub open spec fn located_point(s: Seq<Entity>, l: Location) -> Vec2
    recommends
        located_err(s, l) is None,
{
    match l {
        Location::Absolute(p) => p,
        Location::OnTarget { target, anchor, offset } => anchor_point(
            s[spec_resolve(s, target)[0] as int],
            anchor,
            offset,
        ),
    }
}

/// One axis of an anchor point, exact until the final clamp.
fn anchor_axis(pos: i64, size: i64, r: Ratio, off: i64) -> (res: i64)
    requires
        0 <= size,
        r.wf(),
    ensures
        res as int == sat64(pos + scale_floor(size as int, r.num as int, r.den as int) + off),
{
    let f: i128 = floor_scale_i128(size, r.num, r.den);
    clamp_i128(pos as i128 + f + off as i128)
}

/// Resolve a location against the live store. The reference entity's state
/// is read fully here, before any mutation.
fn locate(store: &EntityStore, l: &Location) -> (r: Result<Vec2, SceneError>)
    requires
        store.wf(),
        location_wf(*l),
    ensures
        match r {
            Ok(p) => located_err(store.entities@, *l) is None && p == located_point(
                store.entities@,
                *l,
            ),
            Err(e) => located_err(store.entities@, *l) == Some(e),
        },
{
    match l {
        Location::Absolute(p) => Ok(*p),
        Location::OnTarget { target, anchor, offset } => {
            let total: usize = store.len();
            proof {
                assert(store.entities@.len() == total as int);
            }
            let idxs: Vec<usize> = store.resolve(target);
            if idxs.len() == 0 {
                Err(SceneError::NotFound)
            } else if idxs.len() > 1 {
                Err(SceneError::AmbiguousTarget)
            } else {
                proof {
                    lemma_resolved_upto_complete(
                        store.entities@,
                        *target,
                        store.entities@.len() as int,
                    );
                    assert(idxs@ == spec_resolve(store.entities@, *target));
                    assert((spec_resolve(store.entities@, *target)[0] as int)
                        < store.entities@.len());
                }
                let i: usize = idxs[0];
                proof {
                    assert(store.entities@[i as int].wf());
                }
                let x: i64 = anchor_axis(
                    store.entities[i].pos.x,
                    store.entities[i].scaled_size.x,
                    anchor.x,
                    offset.x,
                );
                let y: i64 = anchor_axis(
                    store.entities[i].pos.y,
                    store.entities[i].scaled_size.y,
                    anchor.y,
                    offset.y,
                );
                Ok(Vec2 { x, y })
            }
        },
    }
}

/// The entity carries the id or tag, checked against the live state.
fn entity_matches(e: &Entity, t: &Target) -> (r: bool)
    ensures
        r == target_matches(*e, *t),
{
    match t {
        Target::ById(id) => e.id == *id,
        Target::ByTag(tag) => e.has_tag(tag),
    }
}

/// The per-entity effect of replacing the attached animation: playback is
/// reset and the new first frame is displayed at once.
pub open spec fn set_anim_entity(e: Entity, seq: FrameSeq, fps: u32) -> Entity {
    Entity { animation: Some(Animation { seq, fps, index: 0u32, acc: 0u64 }), image: seq.first, ..e }
}

/// The per-entity effect of overwriting the momentum.
pub open spec fn set_momentum_entity(e: Entity, v: Vec2) -> Entity {
    Entity { momentum: v, ..e }
}

/// The per-entity effect of an added impulse, per component, saturating.
pub open spec fn add_momentum_entity(e: Entity, v: Vec2) -> Entity {
    Entity {
        momentum: Vec2 {
            x: sat64(e.momentum.x + v.x) as i64,
            y: sat64(e.momentum.y + v.y) as i64,
        },
        ..e
    }
}

/// The per-entity effect of flipping visibility.
pub open spec fn toggle_entity(e: Entity) -> Entity {
    Entity { visible: !e.visible, ..e }
}

/// An entity placed per a location resolved against the pre-action store:
/// an absolute location gives the new top-left corner; an anchored
/// location gives the point the entity's center is placed on.
pub open spec fn teleport_entity(s: Seq<Entity>, l: Location, e: Entity) -> Entity {
    match l {
        Location::Absolute(p) => Entity { pos: p, ..e },
        Location::OnTarget { .. } => {
            let c = located_point(s, l);
            Entity {
                pos: Vec2 {
                    x: sat64(c.x - e.scaled_size.x / 2) as i64,
                    y: sat64(c.y - e.scaled_size.y / 2) as i64,
                },
                ..e
            }
        },
    }
}

/// Apply a per-entity transform to exactly the entities the target
/// resolves to, leaving all others untouched.
pub open spec fn map_targets(s: Seq<Entity>, t: Target, f: spec_fn(Entity) -> Entity) -> Seq<
    Entity,
> {
    Seq::new(
        s.len(),
        |i: int|
            if target_matches(s[i], t) {
                f(s[i])
            } else {
                s[i]
            },
    )
}

/// The store after one action. A failing action leaves the store
/// unchanged; a conditional runs the branch the condition selects.
pub open spec fn dispatch_spec(s: Seq<Entity>, a: Action) -> Seq<Entity>
    decreases a,
{
    match a {
        Action::SetAnimation { target, seq, fps } => map_targets(
            s,
            target,
            |e: Entity| set_anim_entity(e, seq, fps),
        ),
        Action::SetMomentum { target, value } => map_targets(
            s,
            target,
            |e: Entity| set_momentum_entity(e, value),
        ),
        Action::ApplyMomentum { target, value } => map_targets(
            s,
            target,
            |e: Entity| add_momentum_entity(e, value),
        ),
        Action::Toggle { target } => map_targets(s, target, |e: Entity| toggle_entity(e)),
        Action::Teleport { target, location } => if located_err(s, location) is Some {
            s
        } else {
            map_targets(s, target, |e: Entity| teleport_entity(s, location, e))
        },
        Action::Conditional { condition, if_true, if_false } => if spec_eval(s, condition) {
            dispatch_spec(s, *if_true)
        } else {
            match if_false {
                Some(b) => dispatch_spec(s, *b),
                None => s,
            }
        },
    }
}

/// The error one action reports, if any: exactly an anchored teleport
/// whose reference is missing or ambiguous, surfaced through the branch a
/// conditional selects.
pub open spec fn dispatch_err(s: Seq<Entity>, a: Action) -> Option<SceneError>
    decreases a,
{
    match a {
        Action::Teleport { location, .. } => located_err(s, location),
        Action::Conditional { condition, if_true, if_false } => if spec_eval(s, condition) {
            dispatch_err(s, *if_true)
        } else {
            match if_false {
                Some(b) => dispatch_err(s, *b),
                None => None,
            }
        },
        _ => None,
    }
}

/// Dispatch keeps the entity count, every id and tag list, uniqueness of
/// ids and well-formedness.
pub proof fn lemma_dispatch_preserves(s: Seq<Entity>, a: Action)
    requires
        ids_unique(s),
        forall|i: int| 0 <= i < s.len() ==> (#[trigger] s[i]).wf(),
        action_wf(a),
    ensures
        dispatch_spec(s, a).len() == s.len(),
        forall|i: int| 0 <= i < s.len() ==> (#[trigger] dispatch_spec(s, a)[i]).wf(),
        forall|i: int|
            0 <= i < s.len() ==> (#[trigger] dispatch_spec(s, a)[i]).id@ == s[i].id@ && dispatch_spec(
                s,
                a,
            )[i].tags == s[i].tags,
        ids_unique(dispatch_spec(s, a)),
    decreases a,
{
    let d = dispatch_spec(s, a);
    match a {
        Action::Conditional { condition, if_true, if_false } => {
            if spec_eval(s, condition) {
                lemma_dispatch_preserves(s, *if_true);
            } else {
                match if_false {
                    Some(b) => lemma_dispatch_preserves(s, *b),
                    None => {},
                }
            }
        },
        _ => {
            assert forall|i: int| 0 <= i < s.len() implies (#[trigger] d[i]).wf() && d[i].id@
                == s[i].id@ && d[i].tags == s[i].tags by {
                assert(s[i].wf());
            };
        },
    }
    assert forall|i: int, j: int| 0 <= i < j < d.len() implies d[i].id@ != d[j].id@ by {
        assert(d[i].id@ == s[i].id@ && d[j].id@ == s[j].id@);
    };
}

/// Overwrite the momentum of every entity the target resolves to.
fn run_set_momentum(store: &mut EntityStore, t: &Target, v: Vec2)
    ensures
        final(store).entities@ == map_targets(
            old(store).entities@,
            *t,
            |e: Entity| set_momentum_entity(e, v),
        ),
{
    let ghost s0 = store.entities@;
    let n: usize = store.entities.len();
    let mut i: usize = 0;
    while i < n
        invariant
            i <= n,
            n == store.entities@.len(),
            s0.len() == n as int,
            forall|j: int|
                0 <= j < i ==> #[trigger] store.entities@[j] == (if target_matches(s0[j], *t) {
                    set_momentum_entity(s0[j], v)
                } else {
                    s0[j]
                }),
            forall|j: int| i <= j < n ==> #[trigger] store.entities@[j] == s0[j],
        decreases n - i,
    {
        let matched: bool = entity_matches(&store.entities[i], t);
        if matched {
            let e = &mut store.entities[i];
            e.momentum = v;
        }
        i += 1;
    }
    proof {
        assert(store.entities@ =~= map_targets(s0, *t, |e: Entity| set_momentum_entity(e, v)));
    }
}

/// Add an impulse to the momentum of every entity the target resolves to.
fn run_apply_momentum(store: &mut EntityStore, t: &Target, v: Vec2)
    ensures
        final(store).entities@ == map_targets(
            old(store).entities@,
            *t,
            |e: Entity| add_momentum_entity(e, v),
        ),
{
    let ghost s0 = store.entities@;
    let n: usize = store.entities.len();
    let mut i: usize = 0;
    while i < n
        invariant
            i <= n,
            n == store.entities@.len(),
            s0.len() == n as int,
            forall|j: int|
                0 <= j < i ==> #[trigger] store.entities@[j] == (if target_matches(s0[j], *t) {
                    add_momentum_entity(s0[j], v)
                } else {
                    s0[j]
                }),
            forall|j: int| i <= j < n ==> #[trigger] store.entities@[j] == s0[j],
        decreases n - i,
    {
        let matched: bool = entity_matches(&store.entities[i], t);
        if matched {
            let mx: i64 = sat_add64(store.entities[i].momentum.x, v.x);
            let my: i64 = sat_add64(store.entities[i].momentum.y, v.y);
            let e = &mut store.entities[i];
            e.momentum = Vec2 { x: mx, y: my };
        }
        i += 1;
    }
    proof {
        assert(store.entities@ =~= map_targets(s0, *t, |e: Entity| add_momentum_entity(e, v)));
    }
}

/// Flip the visibility of every entity the target resolves to.
fn run_toggle(store: &mut EntityStore, t: &Target)
    ensures
        final(store).entities@ == map_targets(
            old(store).entities@,
            *t,
            |e: Entity| toggle_entity(e),
        ),
{
    let ghost s0 = store.entities@;
    let n: usize = store.entities.len();
    let mut i: usize = 0;
    while i < n
        invariant
            i <= n,
            n == store.entities@.len(),
            s0.len() == n as int,
            forall|j: int|
                0 <= j < i ==> #[trigger] store.entities@[j] == (if target_matches(s0[j], *t) {
                    toggle_entity(s0[j])
                } else {
                    s0[j]
                }),
            forall|j: int| i <= j < n ==> #[trigger] store.entities@[j] == s0[j],
        decreases n - i,
    {
        let matched: bool = entity_matches(&store.entities[i], t);
        if matched {
            let vis: bool = store.entities[i].visible;
            let e = &mut store.entities[i];
            e.visible = !vis;
        }
        i += 1;
    }
    proof {
        assert(store.entities@ =~= map_targets(s0, *t, |e: Entity| toggle_entity(e)));
    }
}

/// Replace the animation of every entity the target resolves to.
fn run_set_animation(store: &mut EntityStore, t: &Target, seq: FrameSeq, fps: u32)
    requires
        seq.wf(),
        0 < fps,
    ensures
        final(store).entities@ == map_targets(
            old(store).entities@,
            *t,
            |e: Entity| set_anim_entity(e, seq, fps),
        ),
{
    let ghost s0 = store.entities@;
    let n: usize = store.entities.len();
    let mut i: usize = 0;
    while i < n
        invariant
            i <= n,
            n == store.entities@.len(),
            s0.len() == n as int,
            seq.wf(),
            0 < fps,
            forall|j: int|
                0 <= j < i ==> #[trigger] store.entities@[j] == (if target_matches(s0[j], *t) {
                    set_anim_entity(s0[j], seq, fps)
                } else {
                    s0[j]
                }),
            forall|j: int| i <= j < n ==> #[trigger] store.entities@[j] == s0[j],
        decreases n - i,
    {
        let matched: bool = entity_matches(&store.entities[i], t);
        if matched {
            let e = &mut store.entities[i];
            e.animation = Some(Animation::start(seq, fps));
            e.image = seq.first;
        }
        i += 1;
    }
    proof {
        assert(store.entities@ =~= map_targets(s0, *t, |e: Entity| set_anim_entity(e, seq, fps)));
    }
}

/// Move every entity the target resolves to, per a location resolved fully
/// against the pre-action store.
fn run_teleport(store: &mut EntityStore, t: &Target, l: &Location) -> (r: Result<(), SceneError>)
    requires
        old(store).wf(),
        location_wf(*l),
    ensures
        match r {
            Ok(()) => located_err(old(store).entities@, *l) is None && final(store).entities@
                == map_targets(
                old(store).entities@,
                *t,
                |e: Entity| teleport_entity(old(store).entities@, *l, e),
            ),
            Err(er) => located_err(old(store).entities@, *l) == Some(er) && *final(store) == *old(
                store,
            ),
        },
{
    let c: Vec2 = match locate(store, l) {
        Ok(c) => c,
        Err(e) => {
            return Err(e);
        },
    };
    let ghost s0 = store.entities@;
    let n: usize = store.entities.len();
    let mut i: usize = 0;
    while i < n
        invariant
            i <= n,
            n == store.entities@.len(),
            s0.len() == n as int,
            c == located_point(s0, *l),
            forall|j: int| 0 <= j < n ==> (#[trigger] s0[j]).wf(),
            forall|j: int|
                0 <= j < i ==> #[trigger] store.entities@[j] == (if target_matches(s0[j], *t) {
                    teleport_entity(s0, *l, s0[j])
                } else {
                    s0[j]
                }),
            forall|j: int| i <= j < n ==> #[trigger] store.entities@[j] == s0[j],
        decreases n - i,
    {
        let matched: bool = entity_matches(&store.entities[i], t);
        if matched {
            proof {
                assert(s0[i as int].wf());
            }
            let newpos: Vec2 = match l {
                Location::Absolute(p) => *p,
                Location::OnTarget { .. } => {
                    let hx: i64 = half64(store.entities[i].scaled_size.x);
                    let hy: i64 = half64(store.entities[i].scaled_size.y);
                    Vec2 { x: sat_sub64(c.x, hx), y: sat_sub64(c.y, hy) }
                },
            };
            let e = &mut store.entities[i];
            e.pos = newpos;
        }
        i += 1;
    }
    proof {
        assert(store.entities@ =~= map_targets(s0, *t, |e: Entity| teleport_entity(s0, *l, e)));
    }
    Ok(())
}

/// Execute one action against the live store: the mutation is applied
/// synchronously and fully before returning; a failing action reports its
/// error and leaves the store unchanged.
pub fn execute_action(store: &mut EntityStore, a: &Action) -> (r: Result<(), SceneError>)
    requires
        old(store).wf(),
        action_wf(*a),
    ensures
        final(store).wf(),
        final(store).entities@ == dispatch_spec(old(store).entities@, *a),
        match r {
            Ok(()) => dispatch_err(old(store).entities@, *a) is None,
            Err(e) => dispatch_err(old(store).entities@, *a) == Some(e),
        },
    decreases *a,
{
    let ghost s0 = store.entities@;
    let r: Result<(), SceneError> = match a {
        Action::SetAnimation { target, seq, fps } => {
            run_set_animation(store, target, *seq, *fps);
            Ok(())
        },
        Action::SetMomentum { target, value } => {
            run_set_momentum(store, target, *value);
            Ok(())
        },
        Action::ApplyMomentum { target, value } => {
            run_apply_momentum(store, target, *value);
            Ok(())
        },
        Action::Toggle { target } => {
            run_toggle(store, target);
            Ok(())
        },
        Action::Teleport { target, location } => {
            let tr: Result<(), SceneError> = run_teleport(store, target, location);
            proof {
                if located_err(s0, *location) is Some {
                    assert(store.entities@ == dispatch_spec(s0, *a));
                }
            }
            tr
        },
        Action::Conditional { condition, if_true, if_false } => {
            if eval_condition(store, condition) {
                execute_action(store, &**if_true)
            } else {
                match if_false {
                    Some(b) => execute_action(store, &**b),
                    None => Ok(()),
                }
            }
        },
    };
    proof {
        assert(store.entities@ == dispatch_spec(s0, *a));
        lemma_dispatch_preserves(s0, *a);
        assert(ids_unique(store.entities@));
    }
    r
}

/// Toggle idempotence: two toggles of the same target restore every
/// entity, and with them the whole store.
pub proof fn lemma_toggle_twice(s: Seq<Entity>, t: Target)
    ensures
        dispatch_spec(dispatch_spec(s, Action::Toggle { target: t }), Action::Toggle { target: t })
            == s,
{
    let a = Action::Toggle { target: t };
    let d1 = dispatch_spec(s, a);
    let d2 = dispatch_spec(d1, a);
    assert forall|i: int| 0 <= i < s.len() implies d2[i] == s[i] by {
        assert(d1[i].id == s[i].id && d1[i].tags == s[i].tags);
        assert(target_matches(d1[i], t) == target_matches(s[i], t));
        if target_matches(s[i], t) {
            assert(d2[i] == toggle_entity(toggle_entity(s[i])));
        }
    };
    assert(d2 =~= s);
}

/// Conditional short-circuit: when the left side of a conjunction is
/// false, the conjunction is false whatever its right side says, so the
/// right side can never influence the outcome (and the evaluator never
/// reads it).
pub proof fn lemma_and_short_circuit(s: Seq<Entity>, c: Condition)
    requires
        c matches Condition::And(a, _b) && !spec_eval(s, *a),
    ensures
        !spec_eval(s, c),
{
}

/// Tag fan-out: one dispatch of a momentum overwrite bound to a tag
/// mutates exactly the entities currently carrying the tag, all of them
/// at once, and no other.
pub proof fn lemma_tag_fanout(s: Seq<Entity>, tag: String, v: Vec2)
    ensures
        dispatch_spec(s, Action::SetMomentum { target: Target::ByTag(tag), value: v }).len()
            == s.len(),
        forall|i: int|
            0 <= i < s.len() && (#[trigger] s[i]).spec_has_tag(tag@) ==> dispatch_spec(
                s,
                Action::SetMomentum { target: Target::ByTag(tag), value: v },
            )[i] == set_momentum_entity(s[i], v),
        forall|i: int|
            0 <= i < s.len() && !(#[trigger] s[i]).spec_has_tag(tag@) ==> dispatch_spec(
                s,
                Action::SetMomentum { target: Target::ByTag(tag), value: v },
            )[i] == s[i],
{
}

/// Anchor halfway point: with anchor (1/2, 1/2) and zero offset, the
/// located point is the reference's center, `pos + scaled_size / 2`.
pub proof fn lemma_anchor_center(e: Entity, a: Anchor, off: Vec2)
    requires
        a == (Anchor { x: Ratio { num: 1i64, den: 2i64 }, y: Ratio { num: 1i64, den: 2i64 } }),
        off == (Vec2 { x: 0i64, y: 0i64 }),
        e.scaled_size.non_negative(),
        e.pos.x + e.scaled_size.x / 2 <= i64::MAX as int,
        e.pos.y + e.scaled_size.y / 2 <= i64::MAX as int,
    ensures
        anchor_point(e, a, off) == (Vec2 {
            x: (e.pos.x + e.scaled_size.x / 2) as i64,
            y: (e.pos.y + e.scaled_size.y / 2) as i64,
        }),
{
    assert(e.scaled_size.x as int * 1 == e.scaled_size.x as int);
    assert(e.scaled_size.y as int * 1 == e.scaled_size.y as int);
}

/// An anchor numerator below zero places the point strictly before the
/// reference's corresponding edge, outside its bounding box.
pub proof fn lemma_anchor_outside(e: Entity, a: Anchor, off: Vec2)
    requires
        a.wf(),
        a.x.num < 0,
        1 <= e.scaled_size.x,
        off.x == 0,
        (i64::MIN as int) < e.pos.x,
    ensures
        (anchor_point(e, a, off).x as int) < e.pos.x,
{
    let w = e.scaled_size.x as int;
    let num = a.x.num as int;
    let den = a.x.den as int;
    assert(w * num <= -1) by (nonlinear_arith)
        requires
            1 <= w,
            num <= -1,
    ;
    assert((w * num) / den <= -1) by (nonlinear_arith)
        requires
            w * num <= -1,
            1 <= den,
    ;
}

/// A zero-size entity teleported onto an anchored location lands exactly
/// on the located point: the anchor round-trip is exact.
pub proof fn lemma_center_roundtrip(s: Seq<Entity>, l: Location, e: Entity)
    requires
        e.scaled_size == (Vec2 { x: 0i64, y: 0i64 }),
        l matches Location::OnTarget { .. },
    ensures
        teleport_entity(s, l, e).pos == located_point(s, l),
{
}

} // verus!
