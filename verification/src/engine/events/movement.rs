//! Moving and turning an entity by what a frame's time allows.

use vstd::prelude::*;
use crate::engine::graphics::internal_object::graphics_object::{Generic2DGraphicsObject, ObjectView};
use crate::engine::math::fixed::{normalize_rotation, normalized_rotation, Heading, Vector3, UNIT};

verus! {

/// The quotient of two numbers, rounded towards 0.
pub open spec fn truncated(numerator: int, denominator: int) -> int {
    if numerator >= 0 {
        numerator / denominator
    } else {
        -((-numerator) / denominator)
    }
}

/// How far an entity moves on one axis: the direction on that axis times the
/// speed times the time, all three in fixed point, rounded towards 0.
pub open spec fn displacement(direction: int, speed: int, delta_time: int) -> int {
    truncated(direction * speed * delta_time, UNIT * UNIT)
}

/// The coordinate nearest to a number.
pub open spec fn clamped(value: int) -> int {
    if value < i32::MIN {
        i32::MIN as int
    } else if value > i32::MAX {
        i32::MAX as int
    } else {
        value
    }
}

/// Where an entity at `position` stands after it moved; a coordinate stops
/// at the end of its range.
pub open spec fn moved(position: Vector3, direction: Vector3, speed: int, delta_time: int) -> Vector3 {
    Vector3 {
        x: clamped(position.x + displacement(direction.x as int, speed, delta_time)) as i32,
        y: clamped(position.y + displacement(direction.y as int, speed, delta_time)) as i32,
        z: clamped(position.z + displacement(direction.z as int, speed, delta_time)) as i32,
    }
}

fn advance(coordinate: i32, direction: i32, speed: i32, delta_time: i32) -> (advanced: i32)
    ensures
        advanced == clamped(coordinate + displacement(direction as int, speed as int, delta_time as int)),
{
    let d: i128 = direction as i128;
    let s: i128 = speed as i128;
    let t: i128 = delta_time as i128;
    assert(-0x4000_0000_0000_0000 <= d * s <= 0x4000_0000_0000_0000) by (nonlinear_arith)
        requires
            -0x8000_0000 <= d <= 0x8000_0000,
            -0x8000_0000 <= s <= 0x8000_0000,
    ;
    let rate: i128 = d * s;
    assert(-0x4000_0000_0000_0000 * 0x8000_0000 <= rate * t <= 0x4000_0000_0000_0000 * 0x8000_0000)
        by (nonlinear_arith)
        requires
            -0x4000_0000_0000_0000 <= rate <= 0x4000_0000_0000_0000,
            -0x8000_0000 <= t <= 0x8000_0000,
    ;
    let product: i128 = rate * t;
    let step: i128 = if product >= 0 {
        product / 1_000_000_000_000
    } else {
        -((-product) / 1_000_000_000_000)
    };
    assert(step == displacement(direction as int, speed as int, delta_time as int));
    let target: i128 = coordinate as i128 + step;
    if target < i32::MIN as i128 {
        i32::MIN
    } else if target > i32::MAX as i128 {
        i32::MAX
    } else {
        target as i32
    }
}

/// Moves an entity along a direction by `speed * delta_time` and recomputes
/// its model matrix.
pub fn move_object(object: &mut Generic2DGraphicsObject, direction: Vector3, speed: i32, delta_time: i32)
    ensures
        final(object)@ == (ObjectView {
            position: moved(old(object)@.position, direction, speed as int, delta_time as int),
            ..old(object)@
        }).refreshed(),
{
    let position = object.get_position();
    let target = Vector3 {
        x: advance(position.x, direction.x, speed, delta_time),
        y: advance(position.y, direction.y, speed, delta_time),
        z: advance(position.z, direction.z, speed, delta_time),
    };
    object.set_position(target);
    object.update_model_matrix();
}

/// The angle of an entity after it turned by `angle`.
pub open spec fn turned(rotation: int, angle: int) -> int {
    normalized_rotation(rotation + angle)
}

/// The angle that an entity has once it turned by `angle`: the angle that
/// the heading handed to `rotate_object` has to belong to.
pub fn rotation_after(object: &Generic2DGraphicsObject, angle: i32) -> (rotation: i32)
    ensures
        rotation == turned(object@.rotation as int, angle as int),
{
    normalize_rotation(object.get_rotation() as i64 + angle as i64)
}

/// Turns an entity by an angle, gives it the heading of its new angle, and
/// recomputes its model matrix.
pub fn rotate_object(object: &mut Generic2DGraphicsObject, angle: i32, heading: Heading)
    ensures
        final(object)@ == (ObjectView {
            rotation: turned(old(object)@.rotation as int, angle as int) as i32,
            heading,
            ..old(object)@
        }).refreshed(),
{
    let rotation = rotation_after(object, angle);
    proof {
        crate::engine::math::fixed::lemma_rotation_normalization(object@.rotation + angle);
    }
    object.set_rotation(rotation, heading);
    object.update_model_matrix();
}

} // verus!
