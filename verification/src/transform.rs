//! Positions and the transform component.
//!
//! A [`Transform`] carries a translation, a rotation about the z axis in
//! millidegrees, and a scale, mirroring what the engine's transform
//! component offers the simulation: reading the translation, setting
//! single axes, and moving along the local "up" axis.

use vstd::prelude::*;
use crate::fixed::{clamp_i, spec_scaled, clamp_pos_wide, scaled_wide, POS_LIMIT, SCALE};
use crate::trig::{spec_sin_mdeg, spec_cos_mdeg, spec_norm_mdeg, sin_mdeg, cos_mdeg, norm_mdeg, TURN_MDEG};

verus! {

/// A point or scale in fixed-point units.
#[derive(Clone, Copy, PartialEq, Eq, Structural, Debug)]
pub struct Vec3 {
    pub x: i64,
    pub y: i64,
    pub z: i64,
}

impl Vec3 {
    /// Every coordinate within the saturation range.
    pub open spec fn wf(self) -> bool {
        &&& -POS_LIMIT <= self.x <= POS_LIMIT
        &&& -POS_LIMIT <= self.y <= POS_LIMIT
        &&& -POS_LIMIT <= self.z <= POS_LIMIT
    }

    pub fn new(x: i64, y: i64, z: i64) -> (r: Vec3)
        ensures
            r == (Vec3 { x, y, z }),
    {
        Vec3 { x, y, z }
    }
}

/// Clamped coordinate sum.
pub open spec fn spec_cadd(a: int, b: int) -> int {
    clamp_i(a + b, -POS_LIMIT as int, POS_LIMIT as int)
}

/// Adds an offset to a coordinate, saturating at the coordinate range.
pub fn cadd(a: i64, b: i64) -> (r: i64)
    ensures
        r as int == spec_cadd(a as int, b as int),
{
    clamp_pos_wide((a as i128) + (b as i128))
}

/// An entity's spatial state: translation, z-axis rotation, scale.
#[derive(Clone, Copy, PartialEq, Eq, Structural, Debug)]
pub struct Transform {
    pub pos: Vec3,
    /// Rotation about the z axis, normalized millidegrees in `[0, 360000)`.
    pub rot_mdeg: i64,
    pub scale: Vec3,
}

/// Where `move_up` sends a translation: `amount` along the local up axis
/// `(-sin r, cos r)`, each coordinate saturating at the range.
pub open spec fn spec_move_up(t: Transform, amount: int) -> Transform {
    Transform {
        pos: Vec3 {
            x: spec_cadd(t.pos.x as int, spec_scaled(amount, -spec_sin_mdeg(t.rot_mdeg as int))) as i64,
            y: spec_cadd(t.pos.y as int, spec_scaled(amount, spec_cos_mdeg(t.rot_mdeg as int))) as i64,
            z: t.pos.z,
        },
        ..t
    }
}

impl Transform {
    pub open spec fn wf(self) -> bool {
        &&& self.pos.wf()
        &&& 0 <= self.rot_mdeg < TURN_MDEG
        &&& self.scale.wf()
    }

    /// The identity transform: origin, no rotation, unit scale.
    pub fn identity() -> (r: Transform)
        ensures
            r == spec_identity_transform(),
    {
        Transform {
            pos: Vec3 { x: 0, y: 0, z: 0 },
            rot_mdeg: 0,
            scale: Vec3 { x: SCALE, y: SCALE, z: SCALE },
        }
    }

    pub fn translation(&self) -> (r: Vec3)
        ensures
            r == self.pos,
    {
        self.pos
    }

    pub fn set_translation_x(&mut self, v: i64)
        ensures
            *final(self) == (Transform {
                pos: Vec3 { x: clamp_i(v as int, -POS_LIMIT as int, POS_LIMIT as int) as i64, ..old(self).pos },
                ..*old(self)
            }),
    {
        self.pos.x = clamp_pos_wide(v as i128);
    }

    pub fn set_translation_y(&mut self, v: i64)
        ensures
            *final(self) == (Transform {
                pos: Vec3 { y: clamp_i(v as int, -POS_LIMIT as int, POS_LIMIT as int) as i64, ..old(self).pos },
                ..*old(self)
            }),
    {
        self.pos.y = clamp_pos_wide(v as i128);
    }

    pub fn set_translation_xyz(&mut self, x: i64, y: i64, z: i64)
        ensures
            *final(self) == (Transform { pos: spec_clamped_vec(x as int, y as int, z as int), ..*old(self) }),
    {
        self.pos.x = clamp_pos_wide(x as i128);
        self.pos.y = clamp_pos_wide(y as i128);
        self.pos.z = clamp_pos_wide(z as i128);
    }

    /// Shifts the translation along the local z axis, which a z-rotation
    /// leaves pointing at the camera.
    pub fn prepend_translation_z(&mut self, d: i64)
        ensures
            *final(self) == (Transform {
                pos: Vec3 { z: spec_cadd(old(self).pos.z as int, d as int) as i64, ..old(self).pos },
                ..*old(self)
            }),
    {
        self.pos.z = cadd(self.pos.z, d);
    }

    pub fn set_scale(&mut self, s: Vec3)
        ensures
            *final(self) == (Transform { scale: s, ..*old(self) }),
    {
        self.scale = s;
    }

    /// Sets the rotation about the z axis, folding the angle into one turn.
    pub fn set_rotation_z_mdeg(&mut self, angle_mdeg: i64)
        ensures
            *final(self) == (Transform { rot_mdeg: spec_norm_mdeg(angle_mdeg as int) as i64, ..*old(self) }),
    {
        self.rot_mdeg = norm_mdeg(angle_mdeg);
    }

    /// Moves `amount` along the local up axis of this transform.
    pub fn move_up(&mut self, amount: i64)
        requires
            old(self).wf(),
        ensures
            *final(self) == spec_move_up(*old(self), amount as int),
            final(self).wf(),
    {
        let s = sin_mdeg(self.rot_mdeg);
        let c = cos_mdeg(self.rot_mdeg);
        let dx = scaled_wide(amount, -s);
        let dy = scaled_wide(amount, c);
        self.pos.x = clamp_pos_wide((self.pos.x as i128) + dx);
        self.pos.y = clamp_pos_wide((self.pos.y as i128) + dy);
    }
}

/// The identity transform's value.
pub open spec fn spec_identity_transform() -> Transform {
    Transform {
        pos: Vec3 { x: 0, y: 0, z: 0 },
        rot_mdeg: 0,
        scale: Vec3 { x: SCALE, y: SCALE, z: SCALE },
    }
}

/// A translation built from raw coordinates, each saturated.
pub open spec fn spec_clamped_vec(x: int, y: int, z: int) -> Vec3 {
    Vec3 {
        x: clamp_i(x, -POS_LIMIT as int, POS_LIMIT as int) as i64,
        y: clamp_i(y, -POS_LIMIT as int, POS_LIMIT as int) as i64,
        z: clamp_i(z, -POS_LIMIT as int, POS_LIMIT as int) as i64,
    }
}

impl Default for Transform {
    /// The identity transform, as a fresh component starts out.
    fn default() -> (r: Transform)
        ensures
            r == spec_identity_transform(),
    {
        Transform::identity()
    }
}

} // verus!
