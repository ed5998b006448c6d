//! A shape of the caller's own with the shader program that draws it.

use vstd::prelude::*;

verus! {

/// A shape and the shader program that draws it.
pub struct CustomShader {
    vertex_data: Vec<i32>,
    texture_coords: Vec<i32>,
    shader_program: u32,
}

impl CustomShader {
    /// The vertex coordinates.
    pub closed spec fn vertex_data(&self) -> Seq<i32> {
        self.vertex_data@
    }

    /// The texture coordinates.
    pub closed spec fn texture_coords(&self) -> Seq<i32> {
        self.texture_coords@
    }

    /// The handle of the shader program.
    pub closed spec fn shader_program(&self) -> u32 {
        self.shader_program
    }

    /// The shape with the shader program that was compiled for it.
    pub fn new(vertex_data: Vec<i32>, texture_coords: Vec<i32>, shader_program: u32) -> (shape: Self)
        ensures
            shape.vertex_data() == vertex_data@,
            shape.texture_coords() == texture_coords@,
            shape.shader_program() == shader_program,
    {
        CustomShader { vertex_data, texture_coords, shader_program }
    }

    /// A copy of the vertex coordinates.
    pub fn get_vertex_data(&self) -> (data: Vec<i32>)
        ensures
            data@ == self.vertex_data(),
    {
        self.vertex_data.clone()
    }

    /// A copy of the texture coordinates.
    pub fn get_texture_coords(&self) -> (coords: Vec<i32>)
        ensures
            coords@ == self.texture_coords(),
    {
        self.texture_coords.clone()
    }

    /// The handle of the shader program.
    pub fn get_shader_program(&self) -> (program: u32)
        ensures
            program == self.shader_program(),
    {
        self.shader_program
    }
}

} // verus!
