//! The per-tick physics integrator: gravity, momentum, friction, and rest
//! on platform surfaces.

use vstd::prelude::*;
use crate::geom::Vec2;
use crate::entity::Entity;
use crate::num::{sat64, scale_trunc, sat_add64, sat_sub64, decay_scale, lemma_scale_trunc_magnitude};
use crate::store::{EntityStore, ids_unique};
use vstd::arithmetic::power::pow;
use vstd::arithmetic::div_mod::{lemma_fundamental_div_mod, lemma_div_pos_is_pos};

verus! {

/// One entity moved by one tick, before collision: gravity adds to the
/// vertical momentum, the position moves by the momentum, then friction
/// decays each momentum component.
pub open spec fn moved_entity(e: Entity) -> Entity {
    let vy = sat64(e.momentum.y as int + e.gravity as int);
    Entity {
        pos: Vec2 {
            x: sat64(e.pos.x as int + e.momentum.x as int) as i64,
            y: sat64(e.pos.y as int + vy) as i64,
        },
        momentum: Vec2 {
            x: scale_trunc(
                e.momentum.x as int,
                e.friction.x.num as int,
                e.friction.x.den as int,
            ) as i64,
            y: scale_trunc(vy, e.friction.y.num as int, e.friction.y.den as int) as i64,
        },
        ..e
    }
}

/// The highest top surface, among the first `n` moved entities, of a
/// platform whose top a bottom edge falling from `b0` to `b1` crosses:
/// the edge starts at or above the surface and would end below it.
/// Platforms are ground-only, effectively infinite strips, so horizontal
/// extents play no part.
pub open spec fn rest_top_upto(m: Seq<Entity>, b0: int, b1: int, n: int) -> Option<int>
    decreases n,
{
    if n <= 0 {
        None
    } else {
        let p = rest_top_upto(m, b0, b1, n - 1);
        let t = m[n - 1].pos.y as int;
        if m[n - 1].platform && b0 <= t < b1 {
            match p {
                Some(u) => if t < u {
                    Some(t)
                } else {
                    p
                },
                None => Some(t),
            }
        } else {
            p
        }
    }
}

/// The surface a falling bottom edge comes to rest on, if any.
pub open spec fn rest_top(m: Seq<Entity>, b0: int, b1: int) -> Option<int> {
    rest_top_upto(m, b0, b1, m.len() as int)
}

/// The final state of entity `i` after one tick: the moved entity,
/// clamped so that its bottom sits exactly on the highest platform surface
/// it would cross while moving downward, with vertical momentum zeroed on
/// contact. Platforms themselves are never collision-checked.
pub open spec fn settled_entity(s: Seq<Entity>, m: Seq<Entity>, i: int) -> Entity {
    let e = m[i];
    if e.platform {
        e
    } else {
        match rest_top(m, s[i].spec_bottom(), e.spec_bottom()) {
            Some(t) => Entity {
                pos: Vec2 { x: e.pos.x, y: sat64(t - e.scaled_size.y as int) as i64 },
                momentum: Vec2 { x: e.momentum.x, y: 0i64 },
                ..e
            },
            None => e,
        }
    }
}

/// All entities moved by one tick, before collision.
pub open spec fn moved_seq(s: Seq<Entity>) -> Seq<Entity> {
    Seq::new(s.len(), |i: int| moved_entity(s[i]))
}

/// The whole store after one physics tick: every entity is moved, then
/// every non-platform entity is settled against the moved platforms.
/// No entity-entity coupling exists besides platform rest, so the result
/// is order-independent by construction.
pub open spec fn tick_spec(s: Seq<Entity>) -> Seq<Entity> {
    Seq::new(s.len(), |i: int| settled_entity(s, moved_seq(s), i))
}

/// Advance every stored entity by one tick.
pub fn physics_tick(store: &mut EntityStore)
    requires
        old(store).wf(),
    ensures
        final(store).wf(),
        final(store).entities@ == tick_spec(old(store).entities@),
{
    let ghost s0 = store.entities@;
    let n: usize = store.entities.len();

    // Pre-move bottom edges, exact in `i128`.
    let mut bottoms: Vec<i128> = Vec::new();
    let mut i: usize = 0;
    while i < n
        invariant
            i <= n,
            n == store.entities@.len(),
            store.entities@ == s0,
            bottoms@.len() == i as int,
            forall|j: int| 0 <= j < i ==> #[trigger] bottoms@[j] as int == s0[j].spec_bottom(),
        decreases n - i,
    {
        let b: i128 = store.entities[i].pos.y as i128 + store.entities[i].scaled_size.y as i128;
        bottoms.push(b);
        i += 1;
    }

    // Move phase: gravity, position, friction.
    let mut i: usize = 0;
    while i < n
        invariant
            i <= n,
            n == store.entities@.len(),
            s0.len() == n as int,
            forall|j: int| 0 <= j < n ==> (#[trigger] s0[j]).wf(),
            forall|j: int| 0 <= j < i ==> #[trigger] store.entities@[j] == moved_entity(s0[j]),
            forall|j: int| i <= j < n ==> #[trigger] store.entities@[j] == s0[j],
        decreases n - i,
    {
        proof {
            assert(s0[i as int].wf());
        }
        let vy: i64 = sat_add64(store.entities[i].momentum.y, store.entities[i].gravity);
        let px: i64 = sat_add64(store.entities[i].pos.x, store.entities[i].momentum.x);
        let py: i64 = sat_add64(store.entities[i].pos.y, vy);
        let fx = store.entities[i].friction.x;
        let fy = store.entities[i].friction.y;
        let mx: i64 = decay_scale(store.entities[i].momentum.x, fx.num, fx.den);
        let my: i64 = decay_scale(vy, fy.num, fy.den);
        let e = &mut store.entities[i];
        e.pos = Vec2 { x: px, y: py };
        e.momentum = Vec2 { x: mx, y: my };
        i += 1;
    }
    let ghost m = moved_seq(s0);
    proof {
        assert(store.entities@ =~= m);
    }

    // Rest phase: clamp every falling non-platform entity onto the highest
    // platform surface its bottom edge would cross.
    let mut i: usize = 0;
    while i < n
        invariant
            i <= n,
            n == store.entities@.len(),
            s0.len() == n as int,
            m == moved_seq(s0),
            bottoms@.len() == n as int,
            forall|j: int| 0 <= j < n ==> #[trigger] bottoms@[j] as int == s0[j].spec_bottom(),
            forall|j: int| 0 <= j < i ==> #[trigger] store.entities@[j] == settled_entity(s0, m, j),
            forall|j: int| i <= j < n ==> #[trigger] store.entities@[j] == m[j],
        decreases n - i,
    {
        if !store.entities[i].platform {
            let b0: i128 = bottoms[i];
            let b1: i128 = store.entities[i].pos.y as i128
                + store.entities[i].scaled_size.y as i128;
            proof {
                assert(store.entities@[i as int] == m[i as int]);
                assert(b1 as int == m[i as int].spec_bottom());
            }
            let mut best: Option<i64> = None;
            let mut j: usize = 0;
            while j < n
                invariant
                    j <= n,
                    i < n,
                    n == store.entities@.len(),
                    s0.len() == n as int,
                    m == moved_seq(s0),
                    b0 as int == s0[i as int].spec_bottom(),
                    b1 as int == m[i as int].spec_bottom(),
                    forall|k: int|
                        0 <= k < i ==> #[trigger] store.entities@[k] == settled_entity(s0, m, k),
                    forall|k: int| i <= k < n ==> #[trigger] store.entities@[k] == m[k],
                    match best {
                        Some(t) => rest_top_upto(m, b0 as int, b1 as int, j as int) == Some(
                            t as int,
                        ),
                        None => rest_top_upto(m, b0 as int, b1 as int, j as int) is None,
                    },
                decreases n - j,
            {
                proof {
                    if j < i {
                        assert(store.entities@[j as int] == settled_entity(s0, m, j as int));
                    }
                    assert(store.entities@[j as int].platform == m[j as int].platform);
                    assert(m[j as int].platform ==> store.entities@[j as int].pos.y
                        == m[j as int].pos.y);
                }
                if store.entities[j].platform {
                    let t: i64 = store.entities[j].pos.y;
                    if b0 <= t as i128 && (t as i128) < b1 {
                        best = match best {
                            Some(u) => if t < u {
                                Some(t)
                            } else {
                                Some(u)
                            },
                            None => Some(t),
                        };
                    }
                }
                j += 1;
            }
            if let Some(t) = best {
                let newy: i64 = sat_sub64(t, store.entities[i].scaled_size.y);
                let e = &mut store.entities[i];
                e.pos = Vec2 { x: e.pos.x, y: newy };
                e.momentum = Vec2 { x: e.momentum.x, y: 0 };
            }
        }
        i += 1;
    }
    proof {
        assert(store.entities@ =~= tick_spec(s0));
        assert forall|k: int| 0 <= k < s0.len() implies (#[trigger] tick_spec(s0)[k]).wf()
            && tick_spec(s0)[k].id@ == s0[k].id@ by {
            assert(s0[k].wf());
        };
        assert(ids_unique(store.entities@));
    }
}

/// An entity after `n` free ticks of the move phase (no platform contact,
/// no external momentum changes).
pub open spec fn iterated_move(e: Entity, n: nat) -> Entity
    decreases n,
{
    if n == 0 {
        e
    } else {
        moved_entity(iterated_move(e, (n - 1) as nat))
    }
}

/// Vertical momentum after `n` ticks of free fall from rest: each tick
/// gravity is added, then the decay `fnum / fden` is applied with
/// truncation, all clamped into the machine range.
pub open spec fn vy_after(g: int, fnum: int, fden: int, n: nat) -> int
    decreases n,
{
    if n == 0 {
        0
    } else {
        scale_trunc(sat64(vy_after(g, fnum, fden, (n - 1) as nat) + g), fnum, fden)
    }
}

/// Numerator of the exact geometric sum `g * (f + f^2 + ... + f^n)` over
/// the common denominator `fden^n`, where `f = fnum / fden`.
pub open spec fn geom_num(g: int, fnum: int, fden: int, n: nat) -> int
    decreases n,
{
    if n == 0 {
        0
    } else {
        (geom_num(g, fnum, fden, (n - 1) as nat) + g * pow(fden, (n - 1) as nat)) * fnum
    }
}

/// Along the whole fall the decayed sum stays in machine range and the
/// decay divides exactly, so neither truncation nor clamping loses
/// anything.
pub open spec fn decay_exact(g: int, fnum: int, fden: int, n: nat) -> bool
    decreases n,
{
    if n == 0 {
        true
    } else {
        let v = vy_after(g, fnum, fden, (n - 1) as nat);
        decay_exact(g, fnum, fden, (n - 1) as nat) && v + g <= i64::MAX as int && ((v + g) * fnum)
            % fden == 0
    }
}

/// The momentum recurrence of the move phase is exactly `vy_after`: the
/// bridge between the integrator and the closed form below.
pub proof fn lemma_free_fall_momentum(e: Entity, n: nat)
    requires
        e.momentum.y == 0,
        e.friction.y.wf(),
    ensures
        iterated_move(e, n).momentum.y as int == vy_after(
            e.gravity as int,
            e.friction.y.num as int,
            e.friction.y.den as int,
            n,
        ),
        iterated_move(e, n).gravity == e.gravity,
        iterated_move(e, n).friction == e.friction,
    decreases n,
{
    if n > 0 {
        lemma_free_fall_momentum(e, (n - 1) as nat);
        let p = iterated_move(e, (n - 1) as nat);
        lemma_scale_trunc_magnitude(
            sat64(p.momentum.y + e.gravity),
            e.friction.y.num as int,
            e.friction.y.den as int,
        );
    }
}

/// For all entities with gravity `g >= 0` and friction `fnum / fden`,
/// after `n` ticks with no external momentum changes and no truncation
/// loss, the vertical momentum equals the closed-form geometric sum of
/// `g` scaled by the decay powers: multiplied through by the common
/// denominator `fden^n`, it is `g * (fnum*fden^(n-1) + ... + fnum^n)`.
pub proof fn lemma_momentum_geometric(g: int, fnum: int, fden: int, n: nat)
    requires
        0 <= g,
        0 < fden,
        0 <= fnum <= fden,
        decay_exact(g, fnum, fden, n),
    ensures
        vy_after(g, fnum, fden, n) * pow(fden, n) == geom_num(g, fnum, fden, n),
        0 <= vy_after(g, fnum, fden, n) <= i64::MAX as int,
    decreases n,
{
    if n == 0 {
        assert(pow(fden, 0) == 1) by {
            vstd::arithmetic::power::lemma_pow0(fden);
        };
    } else {
        let n1 = (n - 1) as nat;
        lemma_momentum_geometric(g, fnum, fden, n1);
        let v = vy_after(g, fnum, fden, n1);
        let w = v + g;
        assert(sat64(w) == w);
        let q = (w * fnum) / fden;
        lemma_fundamental_div_mod(w * fnum, fden);
        assert(w * fnum == fden * q);
        assert(w * fnum >= 0) by (nonlinear_arith)
            requires
                w >= 0,
                fnum >= 0,
        ;
        lemma_div_pos_is_pos(w * fnum, fden);
        assert(vy_after(g, fnum, fden, n) == q);
        assert(pow(fden, n) == fden * pow(fden, n1)) by {
            vstd::arithmetic::power::lemma_pow_adds(fden, 1, n1);
            vstd::arithmetic::power::lemma_pow1(fden);
        };
        assert(q * (fden * pow(fden, n1)) == (geom_num(g, fnum, fden, n1) + g * pow(fden, n1))
            * fnum) by (nonlinear_arith)
            requires
                w * fnum == fden * q,
                v * pow(fden, n1) == geom_num(g, fnum, fden, n1),
                w == v + g,
        ;
        lemma_scale_trunc_magnitude(w, fnum, fden);
    }
}

/// With no platform among the first `n` moved entities there is nothing
/// to rest on.
proof fn lemma_rest_top_none(m: Seq<Entity>, b0: int, b1: int, n: int)
    requires
        forall|j: int| 0 <= j < n ==> !(#[trigger] m[j]).platform,
    ensures
        rest_top_upto(m, b0, b1, n) is None,
    decreases n,
{
    if n > 0 {
        lemma_rest_top_none(m, b0, b1, n - 1);
    }
}

/// In a scene without platforms a tick is exactly the move phase: the
/// momentum recurrence `vy_after` describes every entity's free fall.
pub proof fn lemma_tick_is_free_fall(s: Seq<Entity>, i: int)
    requires
        0 <= i < s.len(),
        forall|j: int| 0 <= j < s.len() ==> !(#[trigger] s[j]).platform,
    ensures
        tick_spec(s)[i] == moved_entity(s[i]),
{
    let m = moved_seq(s);
    assert forall|j: int| 0 <= j < m.len() implies !(#[trigger] m[j]).platform by {
        assert(m[j] == moved_entity(s[j]));
    };
    lemma_rest_top_none(m, s[i].spec_bottom(), m[i].spec_bottom(), m.len() as int);
}

/// Every surface the rest phase settles on was really crossed, and every
/// crossed platform surface keeps the settled bottom at or above it.
proof fn lemma_rest_top_bounds(m: Seq<Entity>, b0: int, b1: int, n: int)
    requires
        0 <= n <= m.len(),
    ensures
        rest_top_upto(m, b0, b1, n) matches Some(t) ==> b0 <= t < b1,
        forall|j: int|
            0 <= j < n && (#[trigger] m[j]).platform && b0 <= (m[j].pos.y as int) < b1 ==> (
            rest_top_upto(m, b0, b1, n) matches Some(t) && t <= m[j].pos.y as int),
    decreases n,
{
    if n > 0 {
        lemma_rest_top_bounds(m, b0, b1, n - 1);
    }
}

/// Platform rest: a non-platform entity whose bottom starts the tick at
/// or above a platform's surface ends the tick at or above that surface
/// (no penetration in the render snapshot), and whenever its free motion
/// would have carried it below the surface, its vertical momentum is
/// exactly zero after the tick. Platforms themselves move freely.
pub proof fn lemma_platform_rest(s: Seq<Entity>, i: int, j: int)
    requires
        0 <= i < s.len(),
        0 <= j < s.len(),
        !s[i].platform,
        s[j].platform,
        0 <= s[i].scaled_size.y,
        s[i].spec_bottom() <= moved_seq(s)[j].pos.y as int,
    ensures
        tick_spec(s)[j] == moved_seq(s)[j],
        tick_spec(s)[i].spec_bottom() <= moved_seq(s)[j].pos.y as int,
        moved_seq(s)[i].spec_bottom() > moved_seq(s)[j].pos.y as int ==> tick_spec(
            s,
        )[i].momentum.y == 0,
{
    let m = moved_seq(s);
    let b0 = s[i].spec_bottom();
    let b1 = m[i].spec_bottom();
    let tj = m[j].pos.y as int;
    lemma_rest_top_bounds(m, b0, b1, m.len() as int);
    if b1 > tj {
        assert(m[j].platform && b0 <= (m[j].pos.y as int) < b1);
        assert(rest_top(m, b0, b1) matches Some(t) && t <= tj);
    }
    match rest_top(m, b0, b1) {
        Some(t) => {
            assert(b0 <= t < b1);
            assert(t - s[i].scaled_size.y >= s[i].pos.y);
            assert(sat64(t - m[i].scaled_size.y as int) == t - m[i].scaled_size.y as int);
            assert(tick_spec(s)[i].spec_bottom() == t);
        },
        None => {
            assert(tick_spec(s)[i] == m[i]);
            assert(b1 <= tj);
        },
    }
}

} // verus!
