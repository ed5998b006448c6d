//! The fixed-point units in which the engine measures lengths, scales,
//! headings and angles.

use vstd::prelude::*;

verus! {

/// The number that stands for 1: a length, a scale factor or a heading
/// component `v` is stored as `v * UNIT`.
pub const UNIT: i32 = 1_000_000;

/// The angle of one full turn. Angles count in steps of which this many make
/// a turn, so one step is a microradian to within one part in ten million.
pub const FULL_ROTATION: i32 = 6_283_185;

/// The angle in `[0, FULL_ROTATION)` that points the same way as `angle`.
pub open spec fn normalized_rotation(angle: int) -> int {
    angle % (FULL_ROTATION as int)
}

/// Brings an angle into `[0, FULL_ROTATION)`.
pub fn normalize_rotation(angle: i64) -> (normalized: i32)
    ensures
        normalized == normalized_rotation(angle as int),
        0 <= normalized < FULL_ROTATION,
{
    let remainder: i64 = angle % (FULL_ROTATION as i64);
    if remainder < 0 {
        (remainder + FULL_ROTATION as i64) as i32
    } else {
        remainder as i32
    }
}

/// A normalized angle lies in `[0, FULL_ROTATION)`, and two angles a full
/// turn apart normalize to the same angle.
pub proof fn lemma_rotation_normalization(angle: int)
    ensures
        0 <= normalized_rotation(angle) < FULL_ROTATION,
        normalized_rotation(angle + FULL_ROTATION) == normalized_rotation(angle),
        normalized_rotation(normalized_rotation(angle)) == normalized_rotation(angle),
{
}

/// A point or a displacement in three dimensions, each component a
/// fixed-point length.
#[derive(Clone, Copy, Debug, PartialEq, Eq, Structural)]
pub struct Vector3 {
    pub x: i32,
    pub y: i32,
    pub z: i32,
}

impl Vector3 {
    /// The vector with the given components.
    pub fn new(x: i32, y: i32, z: i32) -> (v: Self)
        ensures
            v == (Vector3 { x, y, z }),
    {
        Vector3 { x, y, z }
    }

    /// The vector whose components are all 0.
    pub fn zeros() -> (v: Self)
        ensures
            v == (Vector3 { x: 0, y: 0, z: 0 }),
    {
        Vector3 { x: 0, y: 0, z: 0 }
    }
}

/// The direction an entity faces, as the cosine and the sine of its angle in
/// fixed point. Both components lie in `[-UNIT, UNIT]`.
#[derive(Clone, Copy, Debug, PartialEq, Eq, Structural)]
pub struct Heading {
    cos: i32,
    sin: i32,
}

impl Heading {
    #[verifier::type_invariant]
    spec fn in_range(&self) -> bool {
        &&& -UNIT <= self.cos <= UNIT
        &&& -UNIT <= self.sin <= UNIT
    }

    /// The cosine component.
    pub closed spec fn cos(&self) -> int {
        self.cos as int
    }

    /// The sine component.
    pub closed spec fn sin(&self) -> int {
        self.sin as int
    }

    /// The heading with the given components.
    pub closed spec fn from_components(cos: i32, sin: i32) -> Heading {
        Heading { cos, sin }
    }

    /// Whether a pair of components can form a heading.
    pub open spec fn valid(cos: int, sin: int) -> bool {
        &&& -UNIT <= cos <= UNIT
        &&& -UNIT <= sin <= UNIT
    }

    /// The heading with the given components, if each lies in
    /// `[-UNIT, UNIT]`.
    pub fn new(cos: i32, sin: i32) -> (heading: Option<Self>)
        ensures
            heading is Some <==> Self::valid(cos as int, sin as int),
            heading matches Some(h) ==> h == Self::from_components(cos, sin) && h.cos() == cos && h.sin()
                == sin,
    {
        if -UNIT <= cos && cos <= UNIT && -UNIT <= sin && sin <= UNIT {
            Some(Heading { cos, sin })
        } else {
            None
        }
    }

    /// The heading of angle 0: along the x axis.
    pub fn forward() -> (heading: Self)
        ensures
            heading == Self::from_components(UNIT, 0),
            heading.cos() == UNIT,
            heading.sin() == 0,
    {
        Heading { cos: UNIT, sin: 0 }
    }

    /// The cosine component.
    pub fn get_cos(&self) -> (cos: i32)
        ensures
            cos == self.cos(),
            -UNIT <= cos <= UNIT,
    {
        proof {
            use_type_invariant(self);
        }
        self.cos
    }

    /// The sine component.
    pub fn get_sin(&self) -> (sin: i32)
        ensures
            sin == self.sin(),
            -UNIT <= sin <= UNIT,
    {
        proof {
            use_type_invariant(self);
        }
        self.sin
    }
}

} // verus!
