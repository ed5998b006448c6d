//! A textured square with a side of 0.2.

use vstd::prelude::*;

verus! {

/// The corners of the square, from the top right clockwise.
pub open spec fn square_vertices() -> Seq<i32> {
    seq![100_000i32, 100_000i32, 100_000i32, -100_000i32, -100_000i32, -100_000i32, -100_000i32, 100_000i32]
}

/// The texture coordinates of the corners.
pub open spec fn square_texture_coords() -> Seq<i32> {
    seq![1_000_000i32, 0i32, 1_000_000i32, 1_000_000i32, 0i32, 1_000_000i32, 0i32, 0i32]
}

/// A textured square and the shader program that draws it.
pub struct SquareShader {
    vertex_data: Vec<i32>,
    texture_coords: Vec<i32>,
    shader_program: u32,
}

impl SquareShader {
    /// The vertex coordinates.
    pub closed spec fn vertex_data(&self) -> Seq<i32> {
        self.vertex_data@
    }

    /// The texture coordinates.
    pub closed spec fn texture_coords(&self) -> Seq<i32> {
        self.texture_coords@
    }

    /// The handle of the shader program.
    pub closed spec fn shader_program(&self) -> u32 {
        self.shader_program
    }

    /// The square with the shader program that was compiled for it.
    pub fn new(shader_program: u32) -> (square: Self)
        ensures
            square.vertex_data() == square_vertices(),
            square.texture_coords() == square_texture_coords(),
            square.shader_program() == shader_program,
    {
        let vertex_data: Vec<i32> = vec![100_000, 100_000, 100_000, -100_000, -100_000, -100_000, -100_000, 100_000];
        let texture_coords: Vec<i32> = vec![1_000_000, 0, 1_000_000, 1_000_000, 0, 1_000_000, 0, 0];
        assert(vertex_data@ =~= square_vertices());
        assert(texture_coords@ =~= square_texture_coords());
        SquareShader { vertex_data, texture_coords, shader_program }
    }

    /// A copy of the vertex coordinates.
    pub fn get_vertex_data(&self) -> (data: Vec<i32>)
        ensures
            data@ == self.vertex_data(),
    {
        self.vertex_data.clone()
    }

    /// A copy of the texture coordinates.
    pub fn get_texture_coords(&self) -> (coords: Vec<i32>)
        ensures
            coords@ == self.texture_coords(),
    {
        self.texture_coords.clone()
    }

    /// The handle of the shader program.
    pub fn get_shader_program(&self) -> (program: u32)
        ensures
            program == self.shader_program(),
    {
        self.shader_program
    }
}

} // verus!
