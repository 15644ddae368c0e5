//! The scene: entity store, event bindings, periodic tick tasks, and the
//! per-frame control flow ending in a render snapshot.

use vstd::prelude::*;
use crate::geom::Vec2;
use crate::entity::{Entity, Animation, anim_after};
use crate::store::{EntityStore, SceneError, Target, has_id};
use crate::action::{Action, action_wf, dispatch_spec, execute_action};
use crate::physics::{tick_spec, physics_tick};

verus! {

/// An edge-triggered raw signal from the host: a key going down, a key
/// going up, or an entity hitting the playable bounds. Key-repeat does not
/// re-fire a press edge.
#[derive(Debug)]
pub enum Trigger {
    KeyPress(String),
    KeyRelease(String),
    BoundaryCollision,
}

/// The signal fires the binding: same edge and same key.
pub open spec fn trigger_fires(b: Trigger, sig: Trigger) -> bool {
    match (b, sig) {
        (Trigger::KeyPress(k1), Trigger::KeyPress(k2)) => k1@ == k2@,
        (Trigger::KeyRelease(k1), Trigger::KeyRelease(k2)) => k1@ == k2@,
        (Trigger::BoundaryCollision, Trigger::BoundaryCollision) => true,
        _ => false,
    }
}

fn fires(b: &Trigger, sig: &Trigger) -> (r: bool)
    ensures
        r == trigger_fires(*b, *sig),
{
    match (b, sig) {
        (Trigger::KeyPress(k1), Trigger::KeyPress(k2)) => *k1 == *k2,
        (Trigger::KeyRelease(k1), Trigger::KeyRelease(k2)) => *k1 == *k2,
        (Trigger::BoundaryCollision, Trigger::BoundaryCollision) => true,
        _ => false,
    }
}

/// One registered binding: when its trigger fires, its action executes.
/// The listener is the entity that owns the binding, kept for
/// bookkeeping and scoping; it is not the action's implicit recipient.
#[derive(Debug)]
pub struct Binding {
    pub trigger: Trigger,
    pub action: Action,
    pub listener: Target,
}

/// A periodic entry of the tick scheduler: every `interval` ticks its
/// action runs with write access to the store. The counter is internal
/// state persisted across ticks for the life of the scene.
#[derive(Debug)]
pub struct TickTask {
    pub interval: u64,
    pub counter: u64,
    pub action: Action,
}

impl TickTask {
    pub open spec fn wf(self) -> bool {
        1 <= self.interval && self.counter < self.interval && action_wf(self.action)
    }
}

/// The task fires on this tick: its counter is about to reach the interval.
pub open spec fn task_fires(t: TickTask) -> bool {
    t.counter + 1 == t.interval
}

/// The task after one tick: the counter advances and wraps to zero when
/// the task fires.
pub open spec fn stepped_task(t: TickTask) -> TickTask {
    TickTask { counter: if task_fires(t) { 0u64 } else { (t.counter + 1) as u64 }, ..t }
}

/// Orientation mode of the virtual canvas; scaling to a window is the
/// host's concern.
#[derive(Clone, Copy, Debug, PartialEq, Eq, Structural)]
pub enum CanvasMode {
    Landscape,
    Portrait,
    Square,
}

/// What the external renderer needs of one entity, once per tick.
#[derive(Clone, Copy, Debug, PartialEq, Eq, Structural)]
pub struct RenderItem {
    pub pos: Vec2,
    pub size: Vec2,
    pub image: u32,
    pub visible: bool,
}

/// The rendered view of one entity: position, display size, displayed
/// image and visibility.
pub open spec fn render_of(e: Entity) -> RenderItem {
    RenderItem { pos: e.pos, size: e.scaled_size, image: e.image, visible: e.visible }
}

/// The store after the first `n` bindings have seen the signal: every
/// fired binding's action executes, in registration order. A failing
/// action is isolated: the remaining bindings still run.
pub open spec fn run_bindings_upto(s: Seq<Entity>, bs: Seq<Binding>, sig: Trigger, n: int) -> Seq<
    Entity,
>
    decreases n,
{
    if n <= 0 {
        s
    } else {
        let p = run_bindings_upto(s, bs, sig, n - 1);
        if trigger_fires(bs[n - 1].trigger, sig) {
            dispatch_spec(p, bs[n - 1].action)
        } else {
            p
        }
    }
}

/// The store after one raw signal has been dispatched.
pub open spec fn signal_spec(s: Seq<Entity>, bs: Seq<Binding>, sig: Trigger) -> Seq<Entity> {
    run_bindings_upto(s, bs, sig, bs.len() as int)
}

/// The store after the first `n` signals of a frame, in arrival order.
pub open spec fn signals_upto(s: Seq<Entity>, bs: Seq<Binding>, sigs: Seq<Trigger>, n: int) -> Seq<
    Entity,
>
    decreases n,
{
    if n <= 0 {
        s
    } else {
        signal_spec(signals_upto(s, bs, sigs, n - 1), bs, sigs[n - 1])
    }
}

/// One entity after the animation phase: the attached animation advances
/// by the elapsed time and its current frame becomes the displayed image.
pub open spec fn animated_entity(e: Entity, elapsed_us: u64) -> Entity {
    match e.animation {
        Some(a) => {
            let a2 = anim_after(a, elapsed_us);
            Entity { animation: Some(a2), image: a2.spec_current_frame(), ..e }
        },
        None => e,
    }
}

/// The store after the animation phase.
pub open spec fn anim_phase(s: Seq<Entity>, elapsed_us: u64) -> Seq<Entity> {
    Seq::new(s.len(), |i: int| animated_entity(s[i], elapsed_us))
}

/// The store after the first `n` tick tasks have run, in registration
/// order; a failing action is isolated.
pub open spec fn run_tasks_upto(s: Seq<Entity>, ts: Seq<TickTask>, n: int) -> Seq<Entity>
    decreases n,
{
    if n <= 0 {
        s
    } else {
        let p = run_tasks_upto(s, ts, n - 1);
        if task_fires(ts[n - 1]) {
            dispatch_spec(p, ts[n - 1].action)
        } else {
            p
        }
    }
}

/// The store after the periodic phase.
pub open spec fn tasks_spec(s: Seq<Entity>, ts: Seq<TickTask>) -> Seq<Entity> {
    run_tasks_upto(s, ts, ts.len() as int)
}

/// All tick tasks stepped by one tick.
pub open spec fn stepped_tasks(ts: Seq<TickTask>) -> Seq<TickTask> {
    Seq::new(ts.len(), |i: int| stepped_task(ts[i]))
}

/// The whole store after one frame: input dispatch completes fully before
/// physics integration, which completes before animation advancement,
/// which completes before the periodic tick tasks; the render snapshot is
/// taken last. This total order makes replay deterministic.
pub open spec fn frame_spec(
    s: Seq<Entity>,
    bs: Seq<Binding>,
    ts: Seq<TickTask>,
    sigs: Seq<Trigger>,
    elapsed_us: u64,
) -> Seq<Entity> {
    tasks_spec(anim_phase(tick_spec(signals_upto(s, bs, sigs, sigs.len() as int)), elapsed_us), ts)
}

/// The scene: the single owner of the entity store, with the registered
/// bindings and periodic tasks. Nothing here suspends or blocks; the host
/// frame loop holds exclusive mutable access.
#[derive(Debug)]
pub struct Scene {
    pub mode: CanvasMode,
    pub virtual_size: Vec2,
    pub store: EntityStore,
    pub bindings: Vec<Binding>,
    pub tasks: Vec<TickTask>,
}

impl Scene {
    pub open spec fn wf(self) -> bool {
        &&& self.store.wf()
        &&& forall|i: int|
            0 <= i < self.bindings@.len() ==> action_wf(#[trigger] self.bindings@[i].action)
        &&& forall|i: int| 0 <= i < self.tasks@.len() ==> (#[trigger] self.tasks@[i]).wf()
    }

    /// An empty scene over a virtual canvas.
    pub fn new(mode: CanvasMode, virtual_size: Vec2) -> (r: Scene)
        ensures
            r.mode == mode,
            r.virtual_size == virtual_size,
            r.store.entities@ =~= Seq::<Entity>::empty(),
            r.bindings@ =~= Seq::<Binding>::empty(),
            r.tasks@ =~= Seq::<TickTask>::empty(),
            r.wf(),
    {
        Scene {
            mode,
            virtual_size,
            store: EntityStore::new(),
            bindings: Vec::new(),
            tasks: Vec::new(),
        }
    }

    /// Insert a game object under the given id, which becomes the
    /// entity's identity; fails with a duplicate-id error when taken.
    pub fn add_game_object(&mut self, id: String, e: Entity) -> (r: Result<(), SceneError>)
        requires
            old(self).wf(),
            e.wf(),
        ensures
            final(self).wf(),
            final(self).mode == old(self).mode,
            final(self).virtual_size == old(self).virtual_size,
            final(self).bindings == old(self).bindings,
            final(self).tasks == old(self).tasks,
            match r {
                Ok(()) => !has_id(old(self).store.entities@, id@) && final(self).store.entities@
                    == old(self).store.entities@.push(Entity { id, ..e }),
                Err(err) => err == SceneError::DuplicateId && has_id(old(self).store.entities@, id@)
                    && *final(self) == *old(self),
            },
    {
        let keyed: Entity = Entity { id, ..e };
        self.store.insert(keyed)
    }

    /// Register a binding; bindings fire in registration order.
    pub fn add_event(&mut self, trigger: Trigger, action: Action, listener: Target)
        requires
            old(self).wf(),
            action_wf(action),
        ensures
            final(self).wf(),
            *final(self) == (Scene {
                bindings: final(self).bindings,
                ..*old(self)
            }),
            final(self).bindings@ == old(self).bindings@.push(
                Binding { trigger, action, listener },
            ),
    {
        self.bindings.push(Binding { trigger, action, listener });
    }

    /// Register a periodic task that runs its action every `interval`
    /// ticks, starting `interval` ticks from now.
    pub fn add_tick_task(&mut self, interval: u64, action: Action)
        requires
            old(self).wf(),
            1 <= interval,
            action_wf(action),
        ensures
            final(self).wf(),
            *final(self) == (Scene { tasks: final(self).tasks, ..*old(self) }),
            final(self).tasks@ == old(self).tasks@.push(
                TickTask { interval, counter: 0u64, action },
            ),
    {
        self.tasks.push(TickTask { interval, counter: 0, action });
    }

    /// Dispatch one raw signal: all bindings it fires execute in
    /// registration order; one failing binding does not stop the rest.
    pub fn handle_signal(&mut self, sig: &Trigger)
        requires
            old(self).wf(),
        ensures
            final(self).wf(),
            *final(self) == (Scene { store: final(self).store, ..*old(self) }),
            final(self).store.entities@ == signal_spec(
                old(self).store.entities@,
                old(self).bindings@,
                *sig,
            ),
    {
        let ghost s0 = self.store.entities@;
        let n: usize = self.bindings.len();
        let mut i: usize = 0;
        while i < n
            invariant
                i <= n,
                n == self.bindings@.len(),
                self.bindings == old(self).bindings,
                self.tasks == old(self).tasks,
                self.mode == old(self).mode,
                self.virtual_size == old(self).virtual_size,
                self.wf(),
                self.store.entities@ == run_bindings_upto(s0, self.bindings@, *sig, i as int),
            decreases n - i,
        {
            if fires(&self.bindings[i].trigger, sig) {
                let _ = execute_action(&mut self.store, &self.bindings[i].action);
            }
            i += 1;
        }
    }

    /// Advance every attached animation by the elapsed time and display
    /// its current frame.
    pub fn animate(&mut self, elapsed_us: u64)
        requires
            old(self).wf(),
        ensures
            final(self).wf(),
            *final(self) == (Scene { store: final(self).store, ..*old(self) }),
            final(self).store.entities@ == anim_phase(old(self).store.entities@, elapsed_us),
    {
        let ghost s0 = self.store.entities@;
        let n: usize = self.store.entities.len();
        let mut i: usize = 0;
        while i < n
            invariant
                i <= n,
                n == self.store.entities@.len(),
                s0.len() == n as int,
                self.bindings == old(self).bindings,
                self.tasks == old(self).tasks,
                self.mode == old(self).mode,
                self.virtual_size == old(self).virtual_size,
                forall|j: int| 0 <= j < n ==> (#[trigger] s0[j]).wf(),
                ids_unique_carry(s0, self.store.entities@),
                forall|j: int|
                    0 <= j < i ==> #[trigger] self.store.entities@[j] == animated_entity(
                        s0[j],
                        elapsed_us,
                    ),
                forall|j: int| i <= j < n ==> #[trigger] self.store.entities@[j] == s0[j],
            decreases n - i,
        {
            proof {
                assert(s0[i as int].wf());
            }
            match self.store.entities[i].animation {
                Some(a0) => {
                    let mut a: Animation = a0;
                    a.advance(elapsed_us);
                    let img: u32 = a.current_frame();
                    let e = &mut self.store.entities[i];
                    e.animation = Some(a);
                    e.image = img;
                },
                None => {},
            }
            i += 1;
        }
        proof {
            assert(self.store.entities@ =~= anim_phase(s0, elapsed_us));
            assert forall|k: int| 0 <= k < s0.len() implies (#[trigger] anim_phase(
                s0,
                elapsed_us,
            )[k]).wf() && anim_phase(s0, elapsed_us)[k].id@ == s0[k].id@ by {
                assert(s0[k].wf());
            };
        }
    }

    /// Step every periodic task by one tick, running the actions of those
    /// that fire, in registration order.
    pub fn tick_tasks(&mut self)
        requires
            old(self).wf(),
        ensures
            final(self).wf(),
            final(self).mode == old(self).mode,
            final(self).virtual_size == old(self).virtual_size,
            final(self).bindings == old(self).bindings,
            final(self).store.entities@ == tasks_spec(old(self).store.entities@, old(self).tasks@),
            final(self).tasks@ == stepped_tasks(old(self).tasks@),
    {
        let ghost s0 = self.store.entities@;
        let ghost t0 = self.tasks@;
        let n: usize = self.tasks.len();
        let mut i: usize = 0;
        while i < n
            invariant
                i <= n,
                n == self.tasks@.len(),
                t0.len() == n as int,
                self.bindings == old(self).bindings,
                self.mode == old(self).mode,
                self.virtual_size == old(self).virtual_size,
                self.store.wf(),
                forall|j: int|
                    0 <= j < self.bindings@.len() ==> action_wf(
                        #[trigger] self.bindings@[j].action,
                    ),
                forall|j: int| 0 <= j < n ==> (#[trigger] t0[j]).wf(),
                forall|j: int| 0 <= j < i ==> #[trigger] self.tasks@[j] == stepped_task(t0[j]),
                forall|j: int| i <= j < n ==> #[trigger] self.tasks@[j] == t0[j],
                self.store.entities@ == run_tasks_upto(s0, t0, i as int),
            decreases n - i,
        {
            let c: u64 = self.tasks[i].counter;
            let iv: u64 = self.tasks[i].interval;
            let firing: bool = c + 1 == iv;
            {
                let t = &mut self.tasks[i];
                t.counter = if firing {
                    0
                } else {
                    c + 1
                };
            }
            if firing {
                proof {
                    assert(t0[i as int].wf());
                }
                let _ = execute_action(&mut self.store, &self.tasks[i].action);
            }
            i += 1;
        }
        proof {
            assert(self.tasks@ =~= stepped_tasks(t0));
        }
    }

    /// The per-tick snapshot for the external renderer, in insertion
    /// order, which stands for the z order.
    pub fn snapshot(&self) -> (r: Vec<RenderItem>)
        ensures
            r@.len() == self.store.entities@.len(),
            forall|i: int|
                0 <= i < r@.len() ==> #[trigger] r@[i] == render_of(self.store.entities@[i]),
    {
        let n: usize = self.store.entities.len();
        let mut r: Vec<RenderItem> = Vec::new();
        let mut i: usize = 0;
        while i < n
            invariant
                i <= n,
                n == self.store.entities@.len(),
                r@.len() == i as int,
                forall|j: int|
                    0 <= j < i ==> #[trigger] r@[j] == render_of(self.store.entities@[j]),
            decreases n - i,
        {
            let e = &self.store.entities[i];
            r.push(RenderItem { pos: e.pos, size: e.scaled_size, image: e.image, visible: e.visible });
            i += 1;
        }
        r
    }

    /// One frame: dispatch the arrived signals, integrate physics, advance
    /// animations, run the periodic tasks, and expose the render snapshot.
    pub fn frame(&mut self, signals: &Vec<Trigger>, elapsed_us: u64) -> (r: Vec<RenderItem>)
        requires
            old(self).wf(),
        ensures
            final(self).wf(),
            final(self).mode == old(self).mode,
            final(self).virtual_size == old(self).virtual_size,
            final(self).bindings == old(self).bindings,
            final(self).tasks@ == stepped_tasks(old(self).tasks@),
            final(self).store.entities@ == frame_spec(
                old(self).store.entities@,
                old(self).bindings@,
                old(self).tasks@,
                signals@,
                elapsed_us,
            ),
            r@.len() == final(self).store.entities@.len(),
            forall|i: int|
                0 <= i < r@.len() ==> #[trigger] r@[i] == render_of(
                    final(self).store.entities@[i],
                ),
    {
        let ghost s0 = self.store.entities@;
        let ghost bs = self.bindings@;
        let n: usize = signals.len();
        let mut i: usize = 0;
        while i < n
            invariant
                i <= n,
                n == signals@.len(),
                self.wf(),
                self.bindings == old(self).bindings,
                self.tasks == old(self).tasks,
                self.mode == old(self).mode,
                self.virtual_size == old(self).virtual_size,
                bs == self.bindings@,
                self.store.entities@ == signals_upto(s0, bs, signals@, i as int),
            decreases n - i,
        {
            self.handle_signal(&signals[i]);
            i += 1;
        }
        physics_tick(&mut self.store);
        self.animate(elapsed_us);
        self.tick_tasks();
        self.snapshot()
    }
}

/// Ids are kept pointwise, so uniqueness carries over.
pub open spec fn ids_unique_carry(s0: Seq<Entity>, s1: Seq<Entity>) -> bool {
    s1.len() == s0.len() && forall|i: int| 0 <= i < s0.len() ==> #[trigger] s1[i].id@ == s0[i].id@
}

} // verus!
