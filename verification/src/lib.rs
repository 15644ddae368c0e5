//! Verified runtime core for a declarative 2D scene engine.
//!
//! Scene authors declare entities (position, size, momentum, friction,
//! gravity, tags, an optional frame animation) and bind input signals to
//! actions. This crate provides the runtime those declarations target: an
//! entity store addressed by id and by tag, a per-tick physics integrator
//! with platform rest, an action dispatcher with conditional branching, a
//! frame-driven animation controller, and an anchor-relative placement
//! resolver.
//!
//! Coordinates, momenta and gravity are fixed-point integers (the demo
//! scene uses thousandths of a pixel); friction is a rational decay factor
//! applied with truncation toward zero. Image decoding, rendering and
//! input capture are the host's concern: the runtime only consumes decoded
//! frame handles and edge-triggered signals, and exposes a per-tick render
//! snapshot.

pub mod num;
pub mod geom;
pub mod entity;
pub mod store;
pub mod action;
pub mod physics;
pub mod scene;
pub mod platformer;

pub use geom::{Vec2, Decay, Friction, Ratio, Anchor};
pub use entity::{FrameSeq, Animation, Entity, FRAME_UNIT};
pub use store::{Target, SceneError, EntityStore};
pub use action::{Location, Condition, Action, execute_action, eval_condition};
pub use scene::{Trigger, Binding, TickTask, CanvasMode, RenderItem, Scene};
pub use platformer::{MyApp, SceneAssets};
