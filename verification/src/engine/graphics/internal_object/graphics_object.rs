//! The drawable entity: a 2D shape with an identity, a place in the world,
//! handles to its render resources and a set of collision modes.

use vstd::prelude::*;
use crate::engine::graphics::internal_object::bounds::{
    axis_extent,
    extent,
    largest_squared_norm,
    radius_squared,
    vertex_count,
};
use crate::engine::graphics::internal_object::overlap::{
    check_intervals_overlap,
    check_root_below_sum_of_roots,
    intervals_overlap,
    root_below_sum_of_roots,
    OrientedBox,
};
use crate::engine::math::fixed::{normalize_rotation, normalized_rotation, Heading, Vector3, UNIT, FULL_ROTATION};
use crate::engine::math::matrix::{identity, model, Matrix4};

verus! {

/// A way to decide whether two entities collide.
#[derive(Debug, Clone, Copy, PartialEq, Eq, Hash, Structural)]
pub enum CollisionMode {
    /// By the axis-aligned boxes around the shapes; rotation is ignored.
    AABB,
    /// By the circles around the shapes.
    Circle,
    /// By the squares of side `scale`, turned with the entities.
    OBB,
}

/// The collision modes that an entity takes part in.
#[derive(Debug, Clone, Copy, PartialEq, Eq, Structural)]
pub struct CollisionModes {
    aabb: bool,
    circle: bool,
    obb: bool,
}

impl View for CollisionModes {
    type V = Set<CollisionMode>;

    closed spec fn view(&self) -> Set<CollisionMode> {
        Set::new(
            |mode: CollisionMode|
                match mode {
                    CollisionMode::AABB => self.aabb,
                    CollisionMode::Circle => self.circle,
                    CollisionMode::OBB => self.obb,
                },
        )
    }
}

impl CollisionModes {
    /// The empty set: an entity with it never collides.
    pub fn new() -> (modes: Self)
        ensures
            modes@ == Set::<CollisionMode>::empty(),
    {
        let modes = CollisionModes { aabb: false, circle: false, obb: false };
        assert(modes@ =~= Set::<CollisionMode>::empty());
        modes
    }

    /// Adds a mode; returns whether it was new.
    pub fn insert(&mut self, mode: CollisionMode) -> (added: bool)
        ensures
            final(self)@ == old(self)@.insert(mode),
            added == !old(self)@.contains(mode),
    {
        let present = self.contains(mode);
        match mode {
            CollisionMode::AABB => {
                self.aabb = true;
            },
            CollisionMode::Circle => {
                self.circle = true;
            },
            CollisionMode::OBB => {
                self.obb = true;
            },
        }
        assert(self@ =~= old(self)@.insert(mode));
        !present
    }

    /// Whether a mode is in the set.
    pub fn contains(&self, mode: CollisionMode) -> (present: bool)
        ensures
            present == self@.contains(mode),
    {
        match mode {
            CollisionMode::AABB => self.aabb,
            CollisionMode::Circle => self.circle,
            CollisionMode::OBB => self.obb,
        }
    }

    /// Whether the set holds no mode.
    pub fn is_empty(&self) -> (empty: bool)
        ensures
            empty == (self@ == Set::<CollisionMode>::empty()),
    {
        let empty = !self.aabb && !self.circle && !self.obb;
        proof {
            if empty {
                assert(self@ =~= Set::<CollisionMode>::empty());
            } else {
                assert(self@.contains(CollisionMode::AABB) || self@.contains(CollisionMode::Circle)
                    || self@.contains(CollisionMode::OBB));
            }
        }
        empty
    }
}

/// The handles of the resources that the graphics pipeline holds for one
/// entity: its vertex array and the buffers of its positions and of its
/// texture coordinates.
#[derive(Debug, Clone, Copy, PartialEq, Eq, Structural)]
pub struct RenderResources {
    pub vao: u32,
    pub position_vbo: u32,
    pub tex_vbo: u32,
}

/// What a drawable entity is, as plain mathematical values.
pub struct ObjectView {
    pub id: u64,
    pub name: Seq<char>,
    pub vertex_data: Seq<i32>,
    pub texture_coords: Seq<i32>,
    pub resources: RenderResources,
    pub shader_program: u32,
    pub texture_id: Option<u32>,
    pub position: Vector3,
    pub rotation: i32,
    pub heading: Heading,
    pub scale: i32,
    pub model_matrix: Seq<int>,
    pub collision_modes: Set<CollisionMode>,
}

impl ObjectView {
    /// The width of the shape times the scale.
    pub open spec fn scaled_width(self) -> int {
        extent(self.vertex_data, 0) * self.scale
    }

    /// The height of the shape times the scale.
    pub open spec fn scaled_height(self) -> int {
        extent(self.vertex_data, 1) * self.scale
    }

    /// Whether the axis-aligned boxes of two entities overlap on both axes.
    /// The box of an entity is centered at its position and as wide and as
    /// high as its scaled shape; boxes that only touch do not overlap.
    pub open spec fn overlaps_aabb(self, other: ObjectView) -> bool {
        &&& intervals_overlap(
            self.position.x as int,
            self.scaled_width(),
            other.position.x as int,
            other.scaled_width(),
        )
        &&& intervals_overlap(
            self.position.y as int,
            self.scaled_height(),
            other.position.y as int,
            other.scaled_height(),
        )
    }

    /// The square of the bounding radius, times the square of `UNIT`. The
    /// radius is the largest distance of a vertex from the local origin
    /// times the scale, and 0 where the scale is negative.
    pub open spec fn reach_squared(self) -> int {
        if self.scale > 0 {
            self.scale * self.scale * radius_squared(self.vertex_data)
        } else {
            0
        }
    }

    /// The square of the distance between the positions of two entities in
    /// the plane.
    pub open spec fn distance_squared(self, other: ObjectView) -> int {
        (other.position.x - self.position.x) * (other.position.x - self.position.x) + (
        other.position.y - self.position.y) * (other.position.y - self.position.y)
    }

    /// Whether the bounding circles of two entities overlap: the distance
    /// between the positions is less than the sum of the radii.
    pub open spec fn overlaps_circle(self, other: ObjectView) -> bool {
        root_below_sum_of_roots(
            UNIT * UNIT * self.distance_squared(other),
            self.reach_squared(),
            other.reach_squared(),
        )
    }

    /// The square of side `scale` that is centered at the position and
    /// turned with the entity.
    pub open spec fn oriented_box(self) -> OrientedBox {
        OrientedBox {
            center_x: self.position.x,
            center_y: self.position.y,
            heading: self.heading,
            side: self.scale,
        }
    }

    /// Whether the oriented boxes of two entities overlap.
    pub open spec fn overlaps_obb(self, other: ObjectView) -> bool {
        self.oriented_box().overlaps(&other.oriented_box())
    }

    /// The entity once its model matrix was recomputed from its position,
    /// its heading and its scale.
    pub open spec fn refreshed(self) -> ObjectView {
        ObjectView { model_matrix: model(self.position, self.heading, self.scale as int), ..self }
    }

    /// The geometric test of one collision mode.
    pub open spec fn overlaps_in(self, other: ObjectView, mode: CollisionMode) -> bool {
        match mode {
            CollisionMode::AABB => self.overlaps_aabb(other),
            CollisionMode::Circle => self.overlaps_circle(other),
            CollisionMode::OBB => self.overlaps_obb(other),
        }
    }

    /// Whether two entities collide: the test of a mode that both take part
    /// in holds.
    pub open spec fn collides(self, other: ObjectView) -> bool {
        exists|mode: CollisionMode|
            self.collision_modes.contains(mode) && other.collision_modes.contains(mode)
                && #[trigger] self.overlaps_in(other, mode)
    }
}

/// The box test gives the same answer whichever entity is asked about the
/// other.
pub proof fn lemma_aabb_symmetric(a: ObjectView, b: ObjectView)
    ensures
        a.overlaps_aabb(b) == b.overlaps_aabb(a),
{
}

/// The circle test gives the same answer whichever entity is asked about
/// the other.
pub proof fn lemma_circle_symmetric(a: ObjectView, b: ObjectView)
    ensures
        a.overlaps_circle(b) == b.overlaps_circle(a),
{
    let dx = b.position.x - a.position.x;
    let dy = b.position.y - a.position.y;
    assert(dx * dx == (-dx) * (-dx)) by (nonlinear_arith);
    assert(dy * dy == (-dy) * (-dy)) by (nonlinear_arith);
    assert(a.distance_squared(b) == b.distance_squared(a));
    let p = a.reach_squared();
    let q = b.reach_squared();
    assert(4 * p * q == 4 * q * p) by (nonlinear_arith);
}

/// The oriented-box test gives the same answer whichever entity is asked
/// about the other.
pub proof fn lemma_obb_symmetric(a: ObjectView, b: ObjectView)
    ensures
        a.overlaps_obb(b) == b.overlaps_obb(a),
{
}

/// Whether two entities collide does not depend on their order.
pub proof fn lemma_collides_symmetric(a: ObjectView, b: ObjectView)
    ensures
        a.collides(b) == b.collides(a),
{
    lemma_aabb_symmetric(a, b);
    lemma_circle_symmetric(a, b);
    lemma_obb_symmetric(a, b);
    if a.collides(b) {
        let mode = choose|mode: CollisionMode|
            a.collision_modes.contains(mode) && b.collision_modes.contains(mode)
                && #[trigger] a.overlaps_in(b, mode);
        assert(b.overlaps_in(a, mode));
    }
    if b.collides(a) {
        let mode = choose|mode: CollisionMode|
            b.collision_modes.contains(mode) && a.collision_modes.contains(mode)
                && #[trigger] b.overlaps_in(a, mode);
        assert(a.overlaps_in(b, mode));
    }
}

/// An entity without collision modes collides with nothing.
pub proof fn lemma_no_modes_no_collision(a: ObjectView, b: ObjectView)
    requires
        a.collision_modes == Set::<CollisionMode>::empty(),
    ensures
        !a.collides(b),
        !b.collides(a),
{
}

/// A drawable entity.
pub struct Generic2DGraphicsObject {
    id: u64,
    name: String,
    vertex_data: Vec<i32>,
    texture_coords: Vec<i32>,
    resources: RenderResources,
    shader_program: u32,
    texture_id: Option<u32>,
    position: Vector3,
    rotation: i32,
    heading: Heading,
    scale: i32,
    model_matrix: Matrix4,
    collision_modes: CollisionModes,
}

impl View for Generic2DGraphicsObject {
    type V = ObjectView;

    closed spec fn view(&self) -> ObjectView {
        ObjectView {
            id: self.id,
            name: self.name@,
            vertex_data: self.vertex_data@,
            texture_coords: self.texture_coords@,
            resources: self.resources,
            shader_program: self.shader_program,
            texture_id: self.texture_id,
            position: self.position,
            rotation: self.rotation,
            heading: self.heading,
            scale: self.scale,
            model_matrix: self.model_matrix@,
            collision_modes: self.collision_modes@,
        }
    }
}

impl Generic2DGraphicsObject {
    /// An entity with the given identity, shape, resources and placement.
    /// The rotation is normalized; the model matrix is the identity until
    /// `update_model_matrix` is called.
    pub fn new(
        id: u64,
        name: String,
        vertex_data: Vec<i32>,
        texture_coords: Vec<i32>,
        resources: RenderResources,
        shader_program: u32,
        position: Vector3,
        rotation: i32,
        heading: Heading,
        scale: i32,
        texture_id: Option<u32>,
        collision_modes: CollisionModes,
    ) -> (object: Self)
        ensures
            object@ == (ObjectView {
                id,
                name: name@,
                vertex_data: vertex_data@,
                texture_coords: texture_coords@,
                resources,
                shader_program,
                texture_id,
                position,
                rotation: normalized_rotation(rotation as int) as i32,
                heading,
                scale,
                model_matrix: identity(),
                collision_modes: collision_modes@,
            }),
            0 <= object@.rotation < FULL_ROTATION,
    {
        Generic2DGraphicsObject {
            id,
            name,
            vertex_data,
            texture_coords,
            resources,
            shader_program,
            texture_id,
            position,
            rotation: normalize_rotation(rotation as i64),
            heading,
            scale,
            model_matrix: Matrix4::identity(),
            collision_modes,
        }
    }

    /// A copy of the entity that owns the given render resources instead of
    /// sharing those of the entity it was copied from.
    pub fn clone_with_resources(&self, resources: RenderResources) -> (copy: Self)
        ensures
            copy@ == (ObjectView { resources, ..self@ }),
    {
        Generic2DGraphicsObject {
            id: self.id,
            name: self.name.clone(),
            vertex_data: self.vertex_data.clone(),
            texture_coords: self.texture_coords.clone(),
            resources,
            shader_program: self.shader_program,
            texture_id: self.texture_id,
            position: self.position,
            rotation: self.rotation,
            heading: self.heading,
            scale: self.scale,
            model_matrix: self.model_matrix,
            collision_modes: self.collision_modes,
        }
    }

    /// Recomputes the model matrix from the position, the heading and the
    /// scale.
    pub fn update_model_matrix(&mut self)
        ensures
            final(self)@ == old(self)@.refreshed(),
    {
        self.model_matrix = Matrix4::model(&self.position, &self.heading, self.scale);
    }

    /// The width and the height of the shape, each times the scale.
    pub fn dimensions(&self) -> (size: (i64, i64))
        ensures
            size.0 == self@.scaled_width(),
            size.1 == self@.scaled_height(),
    {
        let width: i64 = axis_extent(&self.vertex_data, 0);
        let height: i64 = axis_extent(&self.vertex_data, 1);
        let scale: i64 = self.scale as i64;
        assert(-0xffff_ffff * 0x8000_0000 <= width * scale <= 0xffff_ffff * 0x8000_0000)
            by (nonlinear_arith)
            requires
                0 <= width <= 0xffff_ffff,
                -0x8000_0000 <= scale <= 0x8000_0000,
        ;
        assert(-0xffff_ffff * 0x8000_0000 <= height * scale <= 0xffff_ffff * 0x8000_0000)
            by (nonlinear_arith)
            requires
                0 <= height <= 0xffff_ffff,
                -0x8000_0000 <= scale <= 0x8000_0000,
        ;
        (width * scale, height * scale)
    }

    /// Whether the axis-aligned boxes of two entities overlap.
    pub fn is_colliding_aabb(&self, other: &Generic2DGraphicsObject) -> (colliding: bool)
        ensures
            colliding == self@.overlaps_aabb(other@),
    {
        let (width, height) = self.dimensions();
        let (other_width, other_height) = other.dimensions();
        check_intervals_overlap(self.position.x, width, other.position.x, other_width)
            && check_intervals_overlap(self.position.y, height, other.position.y, other_height)
    }

    /// The square of the bounding radius, times the square of `UNIT`.
    pub fn reach_squared(&self) -> (reach: u128)
        ensures
            reach == self@.reach_squared(),
    {
        if self.scale <= 0 {
            return 0;
        }
        let scale: u128 = self.scale as u128;
        let radius: u128 = largest_squared_norm(&self.vertex_data) as u128;
        assert(scale * scale <= 0x8000_0000 * 0x8000_0000) by (nonlinear_arith)
            requires
                0 <= scale <= 0x8000_0000,
        ;
        let factor: u128 = scale * scale;
        assert(factor * radius <= 0x4000_0000_0000_0000 * 0x8000_0000_0000_0000)
            by (nonlinear_arith)
            requires
                0 <= factor <= 0x4000_0000_0000_0000,
                0 <= radius <= 0x8000_0000_0000_0000,
        ;
        factor * radius
    }

    /// Whether the bounding circles of two entities overlap.
    pub fn is_colliding_circle(&self, other: &Generic2DGraphicsObject) -> (colliding: bool)
        ensures
            colliding == self@.overlaps_circle(other@),
    {
        let dx: i128 = other.position.x as i128 - self.position.x as i128;
        let dy: i128 = other.position.y as i128 - self.position.y as i128;
        assert(0 <= dx * dx <= 0x1_0000_0000 * 0x1_0000_0000) by (nonlinear_arith)
            requires
                -0x1_0000_0000 <= dx <= 0x1_0000_0000,
        ;
        assert(0 <= dy * dy <= 0x1_0000_0000 * 0x1_0000_0000) by (nonlinear_arith)
            requires
                -0x1_0000_0000 <= dy <= 0x1_0000_0000,
        ;
        let distance: i128 = dx * dx + dy * dy;
        let scaled_distance: u128 = (1_000_000_000_000 * distance) as u128;
        assert(scaled_distance == UNIT * UNIT * self@.distance_squared(other@));
        check_root_below_sum_of_roots(scaled_distance, self.reach_squared(), other.reach_squared())
    }

    /// The oriented box of the entity.
    pub fn oriented_box(&self) -> (oriented: OrientedBox)
        ensures
            oriented == self@.oriented_box(),
    {
        OrientedBox {
            center_x: self.position.x,
            center_y: self.position.y,
            heading: self.heading,
            side: self.scale,
        }
    }

    /// Whether the oriented boxes of two entities overlap.
    pub fn is_colliding_obb(&self, other: &Generic2DGraphicsObject) -> (colliding: bool)
        ensures
            colliding == self@.overlaps_obb(other@),
    {
        self.oriented_box().check_overlaps(&other.oriented_box())
    }

    /// The geometric test of one collision mode.
    pub fn check_collision(&self, other: &Generic2DGraphicsObject, mode: CollisionMode) -> (colliding: bool)
        ensures
            colliding == self@.overlaps_in(other@, mode),
    {
        match mode {
            CollisionMode::AABB => self.is_colliding_aabb(other),
            CollisionMode::Circle => self.is_colliding_circle(other),
            CollisionMode::OBB => self.is_colliding_obb(other),
        }
    }

    fn collides_in(&self, other: &Generic2DGraphicsObject, mode: CollisionMode) -> (colliding: bool)
        ensures
            colliding == (self@.collision_modes.contains(mode) && other@.collision_modes.contains(
                mode,
            ) && self@.overlaps_in(other@, mode)),
    {
        self.collision_modes.contains(mode) && other.collision_modes.contains(mode)
            && self.check_collision(other, mode)
    }

    /// Whether two entities collide in a mode that both take part in.
    pub fn is_colliding(&self, other: &Generic2DGraphicsObject) -> (colliding: bool)
        ensures
            colliding == self@.collides(other@),
    {
        let colliding = self.collides_in(other, CollisionMode::AABB) || self.collides_in(
            other,
            CollisionMode::Circle,
        ) || self.collides_in(other, CollisionMode::OBB);
        proof {
            if self@.collides(other@) {
                let mode = choose|mode: CollisionMode|
                    self@.collision_modes.contains(mode) && other@.collision_modes.contains(mode)
                        && #[trigger] self@.overlaps_in(other@, mode);
                assert(mode == CollisionMode::AABB || mode == CollisionMode::Circle || mode
                    == CollisionMode::OBB);
            }
        }
        colliding
    }

    /// The numeric identifier.
    pub fn get_id(&self) -> (id: u64)
        ensures
            id == self@.id,
    {
        self.id
    }

    /// The name.
    pub fn get_name(&self) -> (name: &str)
        ensures
            name@ == self@.name,
    {
        self.name.as_str()
    }

    /// Moves the entity to a position.
    pub fn set_position(&mut self, position: Vector3)
        ensures
            final(self)@ == (ObjectView { position, ..old(self)@ }),
    {
        self.position = position;
    }

    /// Turns the entity to an angle, which is stored normalized, and to the
    /// heading that goes with it.
    pub fn set_rotation(&mut self, rotation: i32, heading: Heading)
        ensures
            final(self)@ == (ObjectView {
                rotation: normalized_rotation(rotation as int) as i32,
                heading,
                ..old(self)@
            }),
            0 <= final(self)@.rotation < FULL_ROTATION,
    {
        self.rotation = normalize_rotation(rotation as i64);
        self.heading = heading;
    }

    /// Sets the uniform scale.
    pub fn set_scale(&mut self, scale: i32)
        ensures
            final(self)@ == (ObjectView { scale, ..old(self)@ }),
    {
        self.scale = scale;
    }

    /// The model matrix as last computed.
    pub fn get_model_matrix(&self) -> (matrix: Matrix4)
        ensures
            matrix@ == self@.model_matrix,
    {
        self.model_matrix
    }

    /// The position.
    pub fn get_position(&self) -> (position: Vector3)
        ensures
            position == self@.position,
    {
        self.position
    }

    /// The angle of rotation.
    pub fn get_rotation(&self) -> (rotation: i32)
        ensures
            rotation == self@.rotation,
    {
        self.rotation
    }

    /// The heading.
    pub fn get_heading(&self) -> (heading: Heading)
        ensures
            heading == self@.heading,
    {
        self.heading
    }

    /// The uniform scale.
    pub fn get_scale(&self) -> (scale: i32)
        ensures
            scale == self@.scale,
    {
        self.scale
    }

    /// The coordinates of the vertices, `x0, y0, x1, y1, ..`.
    pub fn get_vertex_data(&self) -> (data: &Vec<i32>)
        ensures
            data@ == self@.vertex_data,
    {
        &self.vertex_data
    }

    /// The texture coordinates, one pair per vertex.
    pub fn get_texture_coords(&self) -> (coords: &Vec<i32>)
        ensures
            coords@ == self@.texture_coords,
    {
        &self.texture_coords
    }

    /// The number of vertices to draw.
    pub fn vertex_count(&self) -> (count: usize)
        ensures
            count == vertex_count(self@.vertex_data),
    {
        self.vertex_data.len() / 2
    }

    /// The handles of the render resources.
    pub fn get_resources(&self) -> (resources: RenderResources)
        ensures
            resources == self@.resources,
    {
        self.resources
    }

    /// The handle of the shader program.
    pub fn get_shader_program(&self) -> (program: u32)
        ensures
            program == self@.shader_program,
    {
        self.shader_program
    }

    /// The handle of the texture, if the entity has one.
    pub fn get_texture_id(&self) -> (texture: Option<u32>)
        ensures
            texture == self@.texture_id,
    {
        self.texture_id
    }

    /// The collision modes that the entity takes part in.
    pub fn get_collision_modes(&self) -> (modes: CollisionModes)
        ensures
            modes@ == self@.collision_modes,
    {
        self.collision_modes
    }
}

} // verus!
