//! The side-scrolling platformer scene: a player that walks, runs and
//! jumps over a ground platform while three tiled backgrounds scroll.
//!
//! Coordinates are in thousandths of a virtual pixel on a 3840 by 2160
//! canvas. The host decodes the image assets and passes their handles in;
//! everything else about the scene is declared here.

use vstd::prelude::*;
use crate::geom::{Vec2, Decay, Friction};
use crate::entity::{Entity, Animation, FrameSeq};
use crate::store::{Target, SceneError};
use crate::action::Action;
use crate::scene::{Scene, Trigger, CanvasMode};

verus! {

/// Handles of the decoded assets the scene needs: one background picture,
/// one blank pixel for the invisible ground, and the four sprite
/// animations.
#[derive(Clone, Copy, Debug, PartialEq, Eq, Structural)]
pub struct SceneAssets {
    pub background_image: u32,
    pub blank_image: u32,
    pub idle: FrameSeq,
    pub walking: FrameSeq,
    pub running: FrameSeq,
    pub jumping: FrameSeq,
}

impl SceneAssets {
    pub open spec fn wf(self) -> bool {
        self.idle.wf() && self.walking.wf() && self.running.wf() && self.jumping.wf()
    }
}

/// One scrolling background tile: screen-sized, frictionless, weightless.
pub open spec fn bg_entity_ok(e: Entity, name: Seq<char>, x: i64, img: u32) -> bool {
    &&& e.id@ == name
    &&& e.tags@.len() == 2
    &&& e.tags@[0]@ == "background"@
    &&& e.tags@[1]@ == "scroll"@
    &&& e.pos == (Vec2 { x, y: 0i64 })
    &&& e.size == (Vec2 { x: 3_840_000i64, y: 2_160_000i64 })
    &&& e.scaled_size == (Vec2 { x: 3_840_000i64, y: 2_160_000i64 })
    &&& e.momentum == (Vec2 { x: 0i64, y: 0i64 })
    &&& e.friction == (Friction {
        x: Decay { num: 1u32, den: 1u32 },
        y: Decay { num: 1u32, den: 1u32 },
    })
    &&& e.gravity == 0
    &&& e.visible
    &&& !e.platform
    &&& e.animation is None
    &&& e.image == img
}

/// The very wide, thin, solid ground strip the player rests on; it
/// scrolls with the backgrounds.
pub open spec fn ground_entity_ok(e: Entity, img: u32) -> bool {
    &&& e.id@ == "ground"@
    &&& e.tags@.len() == 3
    &&& e.tags@[0]@ == "ground"@
    &&& e.tags@[1]@ == "platform"@
    &&& e.tags@[2]@ == "background"@
    &&& e.pos == (Vec2 { x: -7_680_000i64, y: 1_810_000i64 })
    &&& e.size == (Vec2 { x: 38_400_000i64, y: 10_000i64 })
    &&& e.scaled_size == (Vec2 { x: 38_400_000i64, y: 10_000i64 })
    &&& e.momentum == (Vec2 { x: 0i64, y: 0i64 })
    &&& e.friction == (Friction {
        x: Decay { num: 1u32, den: 1u32 },
        y: Decay { num: 1u32, den: 1u32 },
    })
    &&& e.gravity == 0
    &&& e.visible
    &&& e.platform
    &&& e.animation is None
    &&& e.image == img
}

/// The player: animated, under gravity, with mild friction.
pub open spec fn player_entity_ok(e: Entity, a: SceneAssets) -> bool {
    &&& e.id@ == "player"@
    &&& e.tags@.len() == 1
    &&& e.tags@[0]@ == "player"@
    &&& e.pos == (Vec2 { x: 400_000i64, y: 1_480_000i64 })
    &&& e.size == (Vec2 { x: 200_000i64, y: 330_000i64 })
    &&& e.scaled_size == (Vec2 { x: 200_000i64, y: 330_000i64 })
    &&& e.momentum == (Vec2 { x: 0i64, y: 0i64 })
    &&& e.friction == (Friction {
        x: Decay { num: 98u32, den: 100u32 },
        y: Decay { num: 98u32, den: 100u32 },
    })
    &&& e.gravity == 1200
    &&& e.visible
    &&& !e.platform
    &&& e.animation == Some(Animation { seq: a.idle, fps: 8u32, index: 0u32, acc: 0u64 })
    &&& e.image == a.idle.first
}

/// The action replaces the player's animation with the given sequence.
pub open spec fn is_player_anim(a: Action, seq: FrameSeq, fps: u32) -> bool {
    a matches Action::SetAnimation { target: Target::ById(id), seq: s2, fps: f } && id@
        == "player"@ && s2 == seq && f == fps
}

/// The action overwrites the momentum of everything tagged "background".
pub open spec fn is_background_momentum(a: Action, v: Vec2) -> bool {
    a matches Action::SetMomentum { target: Target::ByTag(tag), value } && tag@ == "background"@
        && value == v
}

/// The action adds an impulse to the player's momentum.
pub open spec fn is_player_impulse(a: Action, v: Vec2) -> bool {
    a matches Action::ApplyMomentum { target: Target::ById(id), value } && id@ == "player"@
        && value == v
}

/// The binding listens on the player and fires on the given key edge.
pub open spec fn on_key(s: Scene, i: int, press: bool, key: Seq<char>) -> bool {
    &&& if press {
        s.bindings@[i].trigger matches Trigger::KeyPress(k) && k@ == key
    } else {
        s.bindings@[i].trigger matches Trigger::KeyRelease(k) && k@ == key
    }
    &&& s.bindings@[i].listener matches Target::ById(l) && l@ == "player"@
}

/// The fully assembled platformer scene.
pub open spec fn platformer_ok(s: Scene, a: SceneAssets) -> bool {
    &&& s.mode == CanvasMode::Landscape
    &&& s.virtual_size == (Vec2 { x: 3_840_000i64, y: 2_160_000i64 })
    &&& s.tasks@.len() == 0
    &&& s.store.entities@.len() == 5
    &&& bg_entity_ok(s.store.entities@[0], "background1"@, 0i64, a.background_image)
    &&& bg_entity_ok(s.store.entities@[1], "background2"@, 3_840_000i64, a.background_image)
    &&& bg_entity_ok(s.store.entities@[2], "background3"@, 7_680_000i64, a.background_image)
    &&& ground_entity_ok(s.store.entities@[3], a.blank_image)
    &&& player_entity_ok(s.store.entities@[4], a)
    &&& s.bindings@.len() == 10
    &&& on_key(s, 0, true, "w"@) && is_player_anim(s.bindings@[0].action, a.walking, 16u32)
    &&& on_key(s, 1, true, "w"@) && is_background_momentum(
        s.bindings@[1].action,
        Vec2 { x: -8000i64, y: 0i64 },
    )
    &&& on_key(s, 2, false, "w"@) && is_player_anim(s.bindings@[2].action, a.idle, 8u32)
    &&& on_key(s, 3, false, "w"@) && is_background_momentum(
        s.bindings@[3].action,
        Vec2 { x: 0i64, y: 0i64 },
    )
    &&& on_key(s, 4, true, "r"@) && is_player_anim(s.bindings@[4].action, a.running, 16u32)
    &&& on_key(s, 5, true, "r"@) && is_background_momentum(
        s.bindings@[5].action,
        Vec2 { x: -20_000i64, y: 0i64 },
    )
    &&& on_key(s, 6, false, "r"@) && is_player_anim(s.bindings@[6].action, a.idle, 8u32)
    &&& on_key(s, 7, false, "r"@) && is_background_momentum(
        s.bindings@[7].action,
        Vec2 { x: 0i64, y: 0i64 },
    )
    &&& on_key(s, 8, true, "a"@) && is_player_anim(s.bindings@[8].action, a.jumping, 10u32)
    &&& on_key(s, 9, true, "a"@) && is_player_impulse(
        s.bindings@[9].action,
        Vec2 { x: 0i64, y: -30_000i64 },
    )
}

/// The platformer application.
pub struct MyApp;

impl MyApp {
    /// Assemble the scene: canvas, three scrolling backgrounds, the solid
    /// ground, the animated player, and the walk, run and jump bindings.
    pub fn new(assets: &SceneAssets) -> (s: Scene)
        requires
            assets.wf(),
        ensures
            s.wf(),
            platformer_ok(s, *assets),
    {
        let virtual_size = Vec2 { x: 3_840_000, y: 2_160_000 };
        let no_motion = Vec2 { x: 0, y: 0 };
        let no_friction = Friction { x: Decay { num: 1, den: 1 }, y: Decay { num: 1, den: 1 } };

        let mut scene: Scene = Scene::new(CanvasMode::Landscape, virtual_size);

        // Three screen-sized backgrounds side by side, for seamless
        // scrolling: when one slides off to the left, the next one is
        // already on screen.
        let mut bg_tags_1: Vec<String> = Vec::new();
        bg_tags_1.push("background".to_owned());
        bg_tags_1.push("scroll".to_owned());
        let mut bg1: Entity = Entity::new(
            "bg1".to_owned(),
            assets.background_image,
            virtual_size,
            Vec2 { x: 0, y: 0 },
            bg_tags_1,
            no_motion,
            no_friction,
            0,
        );
        bg1.set_scaled_size(virtual_size);
        let _r1: Result<(), SceneError> = scene.add_game_object("background1".to_owned(), bg1);

        let mut bg_tags_2: Vec<String> = Vec::new();
        bg_tags_2.push("background".to_owned());
        bg_tags_2.push("scroll".to_owned());
        let mut bg2: Entity = Entity::new(
            "bg2".to_owned(),
            assets.background_image,
            virtual_size,
            Vec2 { x: 3_840_000, y: 0 },
            bg_tags_2,
            no_motion,
            no_friction,
            0,
        );
        bg2.set_scaled_size(virtual_size);
        proof {
            reveal_strlit("background1");
            reveal_strlit("background2");
            reveal_strlit("background3");
            reveal_strlit("ground");
            reveal_strlit("player");
            assert("background1"@[10] == '1' && "background2"@[10] == '2' && "background3"@[10]
                == '3');
            assert("background1"@ != "background2"@);
            assert("background1"@ != "background3"@);
            assert("background2"@ != "background3"@);
            assert("player"@[0] == 'p' && "ground"@[0] == 'g');
            assert("player"@ != "ground"@);
        }
        let _r2: Result<(), SceneError> = scene.add_game_object("background2".to_owned(), bg2);

        let mut bg_tags_3: Vec<String> = Vec::new();
        bg_tags_3.push("background".to_owned());
        bg_tags_3.push("scroll".to_owned());
        let mut bg3: Entity = Entity::new(
            "bg3".to_owned(),
            assets.background_image,
            virtual_size,
            Vec2 { x: 7_680_000, y: 0 },
            bg_tags_3,
            no_motion,
            no_friction,
            0,
        );
        bg3.set_scaled_size(virtual_size);
        let _r3: Result<(), SceneError> = scene.add_game_object("background3".to_owned(), bg3);

        // The ground: very wide, thin, invisible in practice, solid. It
        // starts two screen widths to the left so that scrolling never
        // uncovers its edge, and carries the "background" tag so that it
        // scrolls along with the backdrop.
        let ground_size = Vec2 { x: 38_400_000, y: 10_000 };
        let mut ground_tags: Vec<String> = Vec::new();
        ground_tags.push("ground".to_owned());
        ground_tags.push("platform".to_owned());
        ground_tags.push("background".to_owned());
        let mut ground: Entity = Entity::new(
            "ground".to_owned(),
            assets.blank_image,
            ground_size,
            Vec2 { x: -7_680_000, y: 1_810_000 },
            ground_tags,
            no_motion,
            no_friction,
            0,
        ).as_platform();
        ground.set_scaled_size(ground_size);
        let _r4: Result<(), SceneError> = scene.add_game_object("ground".to_owned(), ground);

        // The player, standing on the ground, looping its idle animation.
        let mut player_tags: Vec<String> = Vec::new();
        player_tags.push("player".to_owned());
        let player: Entity = Entity::new(
            "player".to_owned(),
            assets.idle.first,
            Vec2 { x: 200_000, y: 330_000 },
            Vec2 { x: 400_000, y: 1_480_000 },
            player_tags,
            no_motion,
            Friction { x: Decay { num: 98, den: 100 }, y: Decay { num: 98, den: 100 } },
            1200,
        ).with_animation(assets.idle, 8);
        let _r5: Result<(), SceneError> = scene.add_game_object("player".to_owned(), player);

        // W: walk. The player stays put; the backdrop drifts left.
        scene.add_event(
            Trigger::KeyPress("w".to_owned()),
            Action::SetAnimation {
                target: Target::ById("player".to_owned()),
                seq: assets.walking,
                fps: 16,
            },
            Target::ById("player".to_owned()),
        );
        scene.add_event(
            Trigger::KeyPress("w".to_owned()),
            Action::SetMomentum {
                target: Target::ByTag("background".to_owned()),
                value: Vec2 { x: -8000, y: 0 },
            },
            Target::ById("player".to_owned()),
        );
        scene.add_event(
            Trigger::KeyRelease("w".to_owned()),
            Action::SetAnimation {
                target: Target::ById("player".to_owned()),
                seq: assets.idle,
                fps: 8,
            },
            Target::ById("player".to_owned()),
        );
        scene.add_event(
            Trigger::KeyRelease("w".to_owned()),
            Action::SetMomentum {
                target: Target::ByTag("background".to_owned()),
                value: Vec2 { x: 0, y: 0 },
            },
            Target::ById("player".to_owned()),
        );

        // R: run. Same shape as walking, faster.
        scene.add_event(
            Trigger::KeyPress("r".to_owned()),
            Action::SetAnimation {
                target: Target::ById("player".to_owned()),
                seq: assets.running,
                fps: 16,
            },
            Target::ById("player".to_owned()),
        );
        scene.add_event(
            Trigger::KeyPress("r".to_owned()),
            Action::SetMomentum {
                target: Target::ByTag("background".to_owned()),
                value: Vec2 { x: -20_000, y: 0 },
            },
            Target::ById("player".to_owned()),
        );
        scene.add_event(
            Trigger::KeyRelease("r".to_owned()),
            Action::SetAnimation {
                target: Target::ById("player".to_owned()),
                seq: assets.idle,
                fps: 8,
            },
            Target::ById("player".to_owned()),
        );
        scene.add_event(
            Trigger::KeyRelease("r".to_owned()),
            Action::SetMomentum {
                target: Target::ByTag("background".to_owned()),
                value: Vec2 { x: 0, y: 0 },
            },
            Target::ById("player".to_owned()),
        );

        // A: jump. An upward impulse; gravity brings the player back down
        // onto the ground platform.
        scene.add_event(
            Trigger::KeyPress("a".to_owned()),
            Action::SetAnimation {
                target: Target::ById("player".to_owned()),
                seq: assets.jumping,
                fps: 10,
            },
            Target::ById("player".to_owned()),
        );
        scene.add_event(
            Trigger::KeyPress("a".to_owned()),
            Action::ApplyMomentum {
                target: Target::ById("player".to_owned()),
                value: Vec2 { x: 0, y: -30_000 },
            },
            Target::ById("player".to_owned()),
        );

        scene
    }
}

} // verus!
