//! Entities and their attached frame animations.

use vstd::prelude::*;
use crate::geom::{Vec2, Friction};

verus! {

/// Accumulator units that make up one animation frame: the accumulator
/// advances by `fps` units per microsecond of elapsed time, so one frame
/// lasts exactly `1 / fps` seconds.
pub const FRAME_UNIT: u64 = 1_000_000;

/// An ordered, finite sequence of decoded frames, identified by the handle
/// of its first frame and its length: the host registers the frames of one
/// decoded animation under consecutive image handles.
#[derive(Clone, Copy, Debug, PartialEq, Eq, Structural)]
pub struct FrameSeq {
    /// Handle of the first frame.
    pub first: u32,
    /// Number of frames; always positive.
    pub count: u32,
}

impl FrameSeq {
    pub open spec fn wf(self) -> bool {
        0 < self.count && self.first as int + self.count as int <= u32::MAX as int + 1
    }
}

/// A restartable, looping frame sequence with a playback rate and an
/// elapsed-time accumulator.
#[derive(Clone, Copy, Debug, PartialEq, Eq, Structural)]
pub struct Animation {
    /// The decoded frames, in display order.
    pub seq: FrameSeq,
    /// Playback rate in frames per second.
    pub fps: u32,
    /// Index of the currently displayed frame.
    pub index: u32,
    /// Elapsed time not yet turned into whole frames, in units of
    /// microseconds times `fps`; always below `FRAME_UNIT`.
    pub acc: u64,
}

/// The state of an animation after `elapsed_us` microseconds: whole frames
/// are consumed from the accumulator, wrapping the index around the end of
/// the sequence; the animation loops and never stops.
pub open spec fn anim_after(a: Animation, elapsed_us: u64) -> Animation {
    let units = a.acc + elapsed_us * a.fps;
    Animation {
        index: ((a.index + units / (FRAME_UNIT as int)) % (a.seq.count as int)) as u32,
        acc: (units % (FRAME_UNIT as int)) as u64,
        ..a
    }
}

impl Animation {
    pub open spec fn wf(self) -> bool {
        &&& self.seq.wf()
        &&& 0 < self.fps
        &&& self.index < self.seq.count
        &&& self.acc < FRAME_UNIT
    }

    /// The handle of the currently displayed frame.
    pub open spec fn spec_current_frame(self) -> u32
        recommends
            self.wf(),
    {
        (self.seq.first + self.index) as u32
    }

    /// A fresh animation positioned at its first frame.
    pub fn start(seq: FrameSeq, fps: u32) -> (r: Animation)
        requires
            seq.wf(),
            0 < fps,
        ensures
            r == (Animation { seq, fps, index: 0u32, acc: 0u64 }),
            r.wf(),
    {
        Animation { seq, fps, index: 0, acc: 0 }
    }

    pub fn current_frame(&self) -> (r: u32)
        requires
            self.wf(),
        ensures
            r == self.spec_current_frame(),
    {
        self.seq.first + self.index
    }

    /// Advance the accumulator by the elapsed time and consume whole frames,
    /// wrapping to the start of the sequence rather than stopping.
    pub fn advance(&mut self, elapsed_us: u64)
        requires
            old(self).wf(),
        ensures
            *final(self) == anim_after(*old(self), elapsed_us),
            final(self).wf(),
    {
        proof {
            assert((elapsed_us as int) * (self.fps as int) <= (u64::MAX as int) * (
            u32::MAX as int)) by (nonlinear_arith)
                requires
                    0 <= elapsed_us as int <= u64::MAX as int,
                    0 <= self.fps as int <= u32::MAX as int,
            ;
        }
        let units: u128 = self.acc as u128 + (elapsed_us as u128) * (self.fps as u128);
        let steps: u128 = units / (FRAME_UNIT as u128);
        let count: u128 = self.seq.count as u128;
        let idx: u128 = ((self.index as u128) + steps) % count;
        self.index = idx as u32;
        self.acc = (units % (FRAME_UNIT as u128)) as u64;
    }
}

/// A positioned, taggable, optionally animated object in the scene.
///
/// Positions, sizes, momenta and gravity are fixed-point integers in
/// virtual coordinates; the y axis grows downward. The displayed image is
/// always defined: it is the static image handle, or the current frame of
/// the attached animation when one is present.
#[derive(Debug)]
pub struct Entity {
    /// Unique identity within one store.
    pub id: String,
    /// Group labels; membership-tested, insertion order irrelevant.
    pub tags: Vec<String>,
    /// Top-left corner in virtual coordinates.
    pub pos: Vec2,
    /// Natural size.
    pub size: Vec2,
    /// Independently settable display size; collision and placement use it.
    pub scaled_size: Vec2,
    /// Velocity per tick.
    pub momentum: Vec2,
    /// Per-tick multiplicative momentum decay, per axis.
    pub friction: Friction,
    /// Additive per-tick acceleration applied to the y momentum only.
    pub gravity: i64,
    /// Whether the render snapshot shows the entity.
    pub visible: bool,
    /// Marks a solid ground strip that other entities rest upon.
    pub platform: bool,
    /// The attached animation, if any.
    pub animation: Option<Animation>,
    /// Handle of the displayed image.
    pub image: u32,
}

impl Entity {
    pub open spec fn wf(self) -> bool {
        &&& self.friction.wf()
        &&& self.size.non_negative()
        &&& self.scaled_size.non_negative()
        &&& match self.animation {
            Some(a) => a.wf() && self.image == a.spec_current_frame(),
            None => true,
        }
    }

    /// The entity carries the given tag.
    pub open spec fn spec_has_tag(self, tag: Seq<char>) -> bool {
        exists|i: int| 0 <= i < self.tags@.len() && self.tags@[i]@ == tag
    }

    /// The lower edge of the displayed bounding box.
    pub open spec fn spec_bottom(self) -> int {
        self.pos.y + self.scaled_size.y
    }

    pub fn has_tag(&self, tag: &String) -> (r: bool)
        ensures
            r == self.spec_has_tag(tag@),
    {
        let n: usize = self.tags.len();
        let mut i: usize = 0;
        while i < n
            invariant
                i <= n,
                n == self.tags@.len(),
                forall|j: int| 0 <= j < i ==> self.tags@[j]@ != tag@,
            decreases n - i,
        {
            if self.tags[i] == *tag {
                return true;
            }
            i += 1;
        }
        false
    }

    /// A fresh entity: visible, not a platform, no animation, display size
    /// equal to the natural size.
    pub fn new(
        id: String,
        image: u32,
        size: Vec2,
        pos: Vec2,
        tags: Vec<String>,
        momentum: Vec2,
        friction: Friction,
        gravity: i64,
    ) -> (e: Entity)
        requires
            friction.wf(),
            size.non_negative(),
        ensures
            e == (Entity {
                id,
                tags,
                pos,
                size,
                scaled_size: size,
                momentum,
                friction,
                gravity,
                visible: true,
                platform: false,
                animation: None::<Animation>,
                image,
            }),
            e.wf(),
    {
        Entity {
            id,
            tags,
            pos,
            size,
            scaled_size: size,
            momentum,
            friction,
            gravity,
            visible: true,
            platform: false,
            animation: None,
            image,
        }
    }

    /// Mark the entity as a solid platform.
    pub fn as_platform(self) -> (e: Entity)
        ensures
            e == (Entity { platform: true, ..self }),
    {
        Entity { platform: true, ..self }
    }

    /// Attach an animation, positioned at its first frame, and display that
    /// frame immediately.
    pub fn with_animation(self, seq: FrameSeq, fps: u32) -> (e: Entity)
        requires
            seq.wf(),
            0 < fps,
        ensures
            e == (Entity {
                animation: Some(Animation { seq, fps, index: 0u32, acc: 0u64 }),
                image: seq.first,
                ..self
            }),
            self.wf() ==> e.wf(),
    {
        Entity { animation: Some(Animation::start(seq, fps)), image: seq.first, ..self }
    }

    /// Replace the display size.
    pub fn set_scaled_size(&mut self, s: Vec2)
        requires
            s.non_negative(),
        ensures
            *final(self) == (Entity { scaled_size: s, ..*old(self) }),
    {
        self.scaled_size = s;
    }
}

} // verus!
