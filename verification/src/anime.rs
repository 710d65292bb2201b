//! The death-animation sequencer.
//!
//! Any gameplay death spawns the same six expanding-circle entities at
//! fixed offsets and timings from the death position; the visual
//! interpolation of these decorations happens elsewhere.

use vstd::prelude::*;
use crate::transform::{Transform, Vec3, spec_cadd, cadd, spec_identity_transform};

verus! {

/// An inverted-color circle decoration: the visible circle itself.
#[derive(Clone, Copy, PartialEq, Eq, Structural, Debug)]
pub struct InvertColorCircle {
    pub pos: Transform,
    pub radius: i64,
}

/// Parameters of one expanding circle: lifetime and delay in
/// milliseconds, growth in fixed-point units per second, and an optional
/// fixed transform override.
#[derive(Clone, Copy, PartialEq, Eq, Structural, Debug)]
pub struct InvertColorAnimation {
    pub last_seconds: i64,
    pub spread_per_second: i64,
    pub delay_second: i64,
    pub transform: Option<Transform>,
}

/// One spawned animation entity: the primary one carries a visible
/// circle from the start, the delayed ones only their parameters.
#[derive(Clone, Copy, PartialEq, Eq, Structural, Debug)]
pub struct AnimationEntity {
    pub circle: Option<InvertColorCircle>,
    pub anim: InvertColorAnimation,
}

/// A default transform moved to `(x, y, z)`.
pub open spec fn spec_anime_tran(x: int, y: int, z: int) -> Transform {
    Transform {
        pos: Vec3 { x: x as i64, y: y as i64, z: z as i64 },
        ..spec_identity_transform()
    }
}

/// The six entities a death at `pos` spawns: a primary circle at the
/// death position (5 s, 300 units/s, no delay), four offset circles at
/// the four `(±50, ±50)` unit corners (4.75 s, 375 units/s, 0.25 s
/// delay), and a final circle back at the center (4 s, 500 units/s,
/// 1 s delay).
pub open spec fn spec_die_anime(pos: Vec3) -> Seq<AnimationEntity> {
    let xl = spec_cadd(pos.x as int, -50_000);
    let xr = spec_cadd(pos.x as int, 50_000);
    let yu = spec_cadd(pos.y as int, 50_000);
    let yd = spec_cadd(pos.y as int, -50_000);
    let center = spec_anime_tran(pos.x as int, pos.y as int, pos.z as int);
    seq![
        AnimationEntity {
            circle: Some(InvertColorCircle { pos: center, radius: 0 }),
            anim: InvertColorAnimation {
                last_seconds: 5000,
                spread_per_second: 300_000,
                delay_second: 0,
                transform: None,
            },
        },
        AnimationEntity {
            circle: None,
            anim: InvertColorAnimation {
                last_seconds: 4750,
                spread_per_second: 375_000,
                delay_second: 250,
                transform: Some(spec_anime_tran(xl, yu, pos.z as int)),
            },
        },
        AnimationEntity {
            circle: None,
            anim: InvertColorAnimation {
                last_seconds: 4750,
                spread_per_second: 375_000,
                delay_second: 250,
                transform: Some(spec_anime_tran(xr, yu, pos.z as int)),
            },
        },
        AnimationEntity {
            circle: None,
            anim: InvertColorAnimation {
                last_seconds: 4750,
                spread_per_second: 375_000,
                delay_second: 250,
                transform: Some(spec_anime_tran(xr, yd, pos.z as int)),
            },
        },
        AnimationEntity {
            circle: None,
            anim: InvertColorAnimation {
                last_seconds: 4750,
                spread_per_second: 375_000,
                delay_second: 250,
                transform: Some(spec_anime_tran(xl, yd, pos.z as int)),
            },
        },
        AnimationEntity {
            circle: None,
            anim: InvertColorAnimation {
                last_seconds: 4000,
                spread_per_second: 500_000,
                delay_second: 1000,
                transform: Some(center),
            },
        },
    ]
}

/// Spawns the six death-animation entities for a death at `enemy_pos`.
pub fn boss_die_anime(animations: &mut Vec<AnimationEntity>, enemy_pos: Vec3)
    requires
        enemy_pos.wf(),
    ensures
        final(animations)@ == old(animations)@ + spec_die_anime(enemy_pos),
{
    let mut transform = Transform::identity();
    transform.set_translation_xyz(enemy_pos.x, enemy_pos.y, enemy_pos.z);
    let center = transform;
    animations.push(AnimationEntity {
        circle: Some(InvertColorCircle { pos: center, radius: 0 }),
        anim: InvertColorAnimation {
            last_seconds: 5000,
            spread_per_second: 300_000,
            delay_second: 0,
            transform: None,
        },
    });
    let xl = cadd(enemy_pos.x, -50_000);
    let xr = cadd(enemy_pos.x, 50_000);
    let yu = cadd(enemy_pos.y, 50_000);
    let yd = cadd(enemy_pos.y, -50_000);
    transform.set_translation_x(xl);
    transform.set_translation_y(yu);
    animations.push(AnimationEntity {
        circle: None,
        anim: InvertColorAnimation {
            last_seconds: 4750,
            spread_per_second: 375_000,
            delay_second: 250,
            transform: Some(transform),
        },
    });
    transform.set_translation_x(xr);
    animations.push(AnimationEntity {
        circle: None,
        anim: InvertColorAnimation {
            last_seconds: 4750,
            spread_per_second: 375_000,
            delay_second: 250,
            transform: Some(transform),
        },
    });
    transform.set_translation_y(yd);
    animations.push(AnimationEntity {
        circle: None,
        anim: InvertColorAnimation {
            last_seconds: 4750,
            spread_per_second: 375_000,
            delay_second: 250,
            transform: Some(transform),
        },
    });
    transform.set_translation_x(xl);
    animations.push(AnimationEntity {
        circle: None,
        anim: InvertColorAnimation {
            last_seconds: 4750,
            spread_per_second: 375_000,
            delay_second: 250,
            transform: Some(transform),
        },
    });
    transform.set_translation_x(enemy_pos.x);
    transform.set_translation_y(enemy_pos.y);
    animations.push(AnimationEntity {
        circle: None,
        anim: InvertColorAnimation {
            last_seconds: 4000,
            spread_per_second: 500_000,
            delay_second: 1000,
            transform: Some(transform),
        },
    });
    proof {
        assert(animations@ =~= old(animations)@ + spec_die_anime(enemy_pos));
    }
}

} // verus!
