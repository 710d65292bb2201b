//! Collision geometry: shape descriptors and overlap tests.

use vstd::prelude::*;
use crate::fixed::clamp_i;
use crate::transform::Vec3;

verus! {

/// A collision shape. The one live variant is a circle whose stored value
/// is the radius *squared* (in squared fixed-point units), so point tests
/// never square a radius again.
#[derive(Clone, Copy, PartialEq, Eq, Structural, Debug)]
pub enum CollideType {
    Circle(i64),
}

/// Building a shape from a raw tag fails on tags no shape is known for.
#[derive(Clone, Copy, PartialEq, Eq, Structural, Debug)]
pub enum ShapeError {
    InvalidShapeTag(u8),
}

/// Squared planar distance between two points; z plays no part.
pub open spec fn spec_dist2(a: Vec3, b: Vec3) -> int {
    (a.x - b.x) * (a.x - b.x) + (a.y - b.y) * (a.y - b.y)
}

/// Point test: the squared planar distance between the shape's center
/// `me` and the point `other` is at most the stored squared radius.
pub open spec fn spec_collides_point(c: CollideType, me: Vec3, other: Vec3) -> bool {
    match c {
        CollideType::Circle(r2) => spec_dist2(me, other) <= r2 as int,
    }
}

/// Shape-vs-shape test. A circle with no spatial extent (squared radius
/// at most zero) degrades to the other shape's point test at this
/// circle's center. Two circles of positive extent report an overlap
/// unconditionally: a true circle-circle test is left open here, and
/// current play relies on the unconditional answer.
pub open spec fn spec_collides_with(c: CollideType, me: Vec3, other_c: CollideType, other: Vec3) -> bool {
    match c {
        CollideType::Circle(r2) => if r2 <= 0 {
            spec_collides_point(other_c, me, other)
        } else {
            true
        },
    }
}

impl CollideType {
    /// Whether the point `other` lies on or inside this shape centered at `me`.
    pub fn is_collide_with_point(&self, me: &Vec3, other: &Vec3) -> (r: bool)
        requires
            me.wf(),
            other.wf(),
        ensures
            r == spec_collides_point(*self, *me, *other),
    {
        match self {
            CollideType::Circle(r_2) => {
                let xd: i128 = (me.x as i128) - (other.x as i128);
                let yd: i128 = (me.y as i128) - (other.y as i128);
                proof {
                    assert(xd * xd >= 0 && xd * xd <= 0x10_0000_0000_0000_0000_0000_0000
                        && yd * yd >= 0 && yd * yd <= 0x10_0000_0000_0000_0000_0000_0000) by (nonlinear_arith)
                        requires
                            -0x2_0000_0000_0000 <= xd as int <= 0x2_0000_0000_0000,
                            -0x2_0000_0000_0000 <= yd as int <= 0x2_0000_0000_0000,
                    ;
                }
                xd * xd + yd * yd <= (*r_2 as i128)
            },
        }
    }

    /// Whether this shape, centered at `me`, overlaps `other_collide`
    /// centered at `other`.
    pub fn is_collide_with(&self, me: &Vec3, other_collide: &CollideType, other: &Vec3) -> (r: bool)
        requires
            me.wf(),
            other.wf(),
        ensures
            r == spec_collides_with(*self, *me, *other_collide, *other),
    {
        match self {
            CollideType::Circle(r_2) => {
                if *r_2 <= 0 {
                    other_collide.is_collide_with_point(me, other)
                } else {
                    true
                }
            },
        }
    }

    /// Builds a shape from a raw tag and its argument list. Tag 10 is a
    /// circle given by its radius; the stored value is the radius squared,
    /// saturated into `i64`. Unknown tags are rejected.
    pub fn try_from(value: u8, args: &Vec<i64>) -> (r: Result<CollideType, ShapeError>)
        requires
            value == 10 ==> args@.len() >= 1,
        ensures
            value == 10 ==> r == Ok::<CollideType, ShapeError>(CollideType::Circle(
                clamp_i(args@[0] * args@[0], i64::MIN as int, i64::MAX as int) as i64,
            )),
            value != 10 ==> r == Err::<CollideType, ShapeError>(ShapeError::InvalidShapeTag(value)),
    {
        match value {
            10 => {
                let a = args[0];
                proof {
                    assert(0 <= (a as int) * (a as int)
                        <= 0x4000_0000_0000_0000_0000_0000_0000_0000) by (nonlinear_arith)
                        requires
                            -0x8000_0000_0000_0000 <= a as int <= 0x7FFF_FFFF_FFFF_FFFF,
                    ;
                }
                let sq: i128 = (a as i128) * (a as i128);
                let r2: i64 = if sq > i64::MAX as i128 {
                    i64::MAX
                } else {
                    sq as i64
                };
                Ok(CollideType::Circle(r2))
            },
            _ => Err(ShapeError::InvalidShapeTag(value)),
        }
    }

    /// How many arguments the shape behind a raw tag takes. Only known
    /// tags may be asked about.
    pub fn get_arg_count(byte: u8) -> (r: usize)
        requires
            byte == 10,
        ensures
            r == 1,
    {
        match byte {
            10 => 1,
            _ => 1,
        }
    }
}

/// The point test is symmetric in its two points: only the squared
/// distance between them is compared against the squared radius.
pub proof fn lemma_point_test_symmetric(c: CollideType, me: Vec3, other: Vec3)
    requires
        c->Circle_0 >= 0,
    ensures
        spec_collides_point(c, me, other) == spec_collides_point(c, other, me),
{
    assert((me.x - other.x) * (me.x - other.x) == (other.x - me.x) * (other.x - me.x)) by (nonlinear_arith);
    assert((me.y - other.y) * (me.y - other.y) == (other.y - me.y) * (other.y - me.y)) by (nonlinear_arith);
}

/// The point test ignores z entirely: changing either point's z
/// coordinate changes nothing.
pub proof fn lemma_point_test_ignores_z(c: CollideType, me: Vec3, other: Vec3, za: i64, zb: i64)
    requires
        c->Circle_0 >= 0,
    ensures
        spec_collides_point(c, Vec3 { z: za, ..me }, Vec3 { z: zb, ..other })
            == spec_collides_point(c, me, other),
{
}

/// A circle of no extent tests against any shape exactly as that shape's
/// point test at the circle's center.
pub proof fn lemma_zero_circle_delegates(me: Vec3, other_c: CollideType, other: Vec3)
    ensures
        spec_collides_with(CollideType::Circle(0), me, other_c, other)
            == spec_collides_point(other_c, me, other),
{
}

} // verus!
