use vstd::prelude::*;
use crate::interpolate::{Fraction, Interpolate, Vec3};

verus! {

/// A part of a transform that an animation can drive.
#[derive(Clone, Copy, Debug, PartialEq, Eq, Structural)]
pub enum Property {
    Position,
    Rotation,
    Scale,
}

/// Position, rotation (as three angles) and scale of an object, in integer units.
#[derive(Clone, Copy, Debug, PartialEq, Eq, Structural)]
pub struct Transform {
    pub position: Vec3,
    pub rotation: Vec3,
    pub scale: Vec3,
}

impl Transform {
    pub fn new(position: Vec3, rotation: Vec3, scale: Vec3) -> (r: Transform)
        ensures
            r == (Transform { position, rotation, scale }),
    {
        Transform { position, rotation, scale }
    }

    /// A transform at `position`, not rotated, with the given uniform scale.
    pub fn at(position: Vec3, unit_scale: i64) -> (r: Transform)
        ensures
            r.position == position,
            r.rotation == (Vec3 { x: 0, y: 0, z: 0 }),
            r.scale == (Vec3 { x: unit_scale, y: unit_scale, z: unit_scale }),
    {
        Transform {
            position,
            rotation: Vec3 { x: 0, y: 0, z: 0 },
            scale: Vec3 { x: unit_scale, y: unit_scale, z: unit_scale },
        }
    }

    pub open spec fn get_spec(self, p: Property) -> Vec3 {
        match p {
            Property::Position => self.position,
            Property::Rotation => self.rotation,
            Property::Scale => self.scale,
        }
    }

    pub open spec fn with(self, p: Property, v: Vec3) -> Transform {
        match p {
            Property::Position => Transform { position: v, ..self },
            Property::Rotation => Transform { rotation: v, ..self },
            Property::Scale => Transform { scale: v, ..self },
        }
    }

    pub fn get(&self, p: Property) -> (r: Vec3)
        ensures
            r == self.get_spec(p),
    {
        match p {
            Property::Position => self.position,
            Property::Rotation => self.rotation,
            Property::Scale => self.scale,
        }
    }

    /// Replaces one property and leaves the others as they are.
    pub fn set(&mut self, p: Property, v: Vec3)
        ensures
            *final(self) == old(self).with(p, v),
    {
        match p {
            Property::Position => self.position = v,
            Property::Rotation => self.rotation = v,
            Property::Scale => self.scale = v,
        }
    }
}

impl Interpolate for Transform {
    open spec fn blend_spec(a: Transform, b: Transform, t: Fraction) -> Transform {
        Transform {
            position: Vec3::blend_spec(a.position, b.position, t),
            rotation: Vec3::blend_spec(a.rotation, b.rotation, t),
            scale: Vec3::blend_spec(a.scale, b.scale, t),
        }
    }

    fn blend(a: &Transform, b: &Transform, t: Fraction) -> (r: Transform) {
        Transform {
            position: Vec3::blend(&a.position, &b.position, t),
            rotation: Vec3::blend(&a.rotation, &b.rotation, t),
            scale: Vec3::blend(&a.scale, &b.scale, t),
        }
    }

    proof fn lemma_blend_ends(a: Transform, b: Transform, t: Fraction) {
        Vec3::lemma_blend_ends(a.position, b.position, t);
        Vec3::lemma_blend_ends(a.rotation, b.rotation, t);
        Vec3::lemma_blend_ends(a.scale, b.scale, t);
    }
}

} // verus!
