//! A plain red square with a side of 0.2.

use vstd::prelude::*;

verus! {

/// The corners of the square, from the top left clockwise.
pub open spec fn plain_square_vertices() -> Seq<i32> {
    seq![-100_000i32, 100_000i32, 100_000i32, 100_000i32, 100_000i32, -100_000i32, -100_000i32, -100_000i32]
}

/// A square without a texture and the shader program that draws it.
pub struct Square {
    vertex_data: Vec<i32>,
    shader_program: u32,
}

impl Square {
    /// The vertex coordinates.
    pub closed spec fn vertex_data(&self) -> Seq<i32> {
        self.vertex_data@
    }

    /// The handle of the shader program.
    pub closed spec fn shader_program(&self) -> u32 {
        self.shader_program
    }

    /// The square with the shader program that was compiled for it.
    pub fn new(shader_program: u32) -> (square: Self)
        ensures
            square.vertex_data() == plain_square_vertices(),
            square.shader_program() == shader_program,
    {
        let vertex_data: Vec<i32> = vec![-100_000, 100_000, 100_000, 100_000, 100_000, -100_000, -100_000, -100_000];
        assert(vertex_data@ =~= plain_square_vertices());
        Square { vertex_data, shader_program }
    }

    /// A copy of the vertex coordinates.
    pub fn get_vertex_data(&self) -> (data: Vec<i32>)
        ensures
            data@ == self.vertex_data(),
    {
        self.vertex_data.clone()
    }

    /// The handle of the shader program.
    pub fn get_shader_program(&self) -> (program: u32)
        ensures
            program == self.shader_program(),
    {
        self.shader_program
    }
}

} // verus!
