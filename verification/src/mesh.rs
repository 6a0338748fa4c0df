//! Description of a simple mesh, corresponding to the most basic set of
//! triangles.
//!
//! A mesh bundles a vertex array, a vertex buffer and an element buffer
//! with the shader program and textures it is drawn with, the draw
//! primitive, and its model, view and projection matrices.  The vertex and
//! index data handed to the mesh stand in the description for what the
//! driver-facing layer buffers to the GPU, and the primitive count is
//! proved to track the number of indices.
//!
//! The scalar type of the vertex data and the integer type of the index
//! data are type parameters; the matrices hold 64-bit integer coordinates,
//! the scalar type this crate's linear algebra works on.

use vstd::prelude::*;

use crate::buffers::{Buffer, ElementBuffer, VertexArray, VertexAttribute, VertexBuffer};
use crate::buffers::spec_layout_sum;
use crate::math::spec_is_eye4;
use crate::glenum;
use crate::shader::ShaderProgram;
use crate::textures::Texture2D;
use crate::types::HasID;
use vstd::slice::slice_to_vec;

verus! {

/// Structure for a simple mesh, corresponding to the most basic set of
/// triangles.
#[derive(Clone, Debug)]
pub struct Mesh<U, I> {
    /// The vertex array describing the layout of the vertex data.
    pub vao: VertexArray,
    /// The buffer holding the vertex data.
    pub vbo: VertexBuffer,
    /// The buffer holding the index data.
    pub ebo: ElementBuffer,
    /// The primitive the mesh is drawn with.
    pub primitive: u32,
    /// How many indices a draw call covers: the length of `indices`.
    pub primitive_num: i32,
    /// The shader program the mesh is drawn with.
    pub shader: ShaderProgram,
    /// The textures bound while the mesh is drawn.
    pub textures: Vec<Texture2D>,
    /// The model matrix.
    pub model_mat: [[i64; 4]; 4],
    /// The view matrix.
    pub view_mat: [[i64; 4]; 4],
    /// The projection matrix.
    pub projection_mat: [[i64; 4]; 4],
    /// The vertex data buffered to `vbo`.
    pub vertices: Vec<U>,
    /// The index data buffered to `ebo`.
    pub indices: Vec<I>,
}

impl<U: Copy, I: Copy> Mesh<U, I> {
    /// Create a new mesh associated to a shader program, from the ids the
    /// driver assigned its vertex array, vertex buffer and element buffer.
    /// The vertex array's element size is the size of the scalar type, as
    /// far as it fits the driver's 32-bit field.
    pub fn new(shader: ShaderProgram, vao_id: u32, vbo_id: u32, ebo_id: u32) -> (m: Self)
        ensures
            m.vao.spec_id() == vao_id,
            m.vao.stride == 0,
            m.vao.layout@ == Seq::<VertexAttribute>::empty(),
            vstd::layout::size_of::<U>() <= u32::MAX ==> m.vao.size == vstd::layout::size_of::<
                U,
            >(),
            m.vbo.spec_id() == vbo_id,
            m.vbo.usage == glenum::STATIC_DRAW,
            m.ebo.spec_id() == ebo_id,
            m.ebo.usage == glenum::STATIC_DRAW,
            m.primitive == glenum::TRIANGLES,
            m.primitive_num == 0,
            m.shader == shader,
            m.textures@ == Seq::<Texture2D>::empty(),
            spec_is_eye4(m.model_mat@),
            spec_is_eye4(m.view_mat@),
            spec_is_eye4(m.projection_mat@),
            m.vertices@ == Seq::<U>::empty(),
            m.indices@ == Seq::<I>::empty(),
    {
        let size = core::mem::size_of::<U>();
        let size32: u32 = if size <= u32::MAX as usize {
            size as u32
        } else {
            4
        };
        let vao = VertexArray::new(vao_id).size(size32);
        Mesh {
            vao,
            vbo: VertexBuffer::new(vbo_id),
            ebo: ElementBuffer::new(ebo_id),
            primitive: glenum::TRIANGLES,
            primitive_num: 0,
            shader,
            textures: Vec::new(),
            model_mat: crate::math::eye4(),
            view_mat: crate::math::eye4(),
            projection_mat: crate::math::eye4(),
            vertices: Vec::new(),
            indices: Vec::new(),
        }
    }

    /// Buffer vertices to the associated VBO, returning `self`.
    pub fn vertices(self, new_vertices: &[U]) -> (r: Self)
        ensures
            r == (Mesh { vertices: r.vertices, vbo: r.vbo, ..self }),
            r.vertices@ == new_vertices@,
            r.vbo.spec_buffered_len() == new_vertices@.len(),
            r.vbo.spec_id() == self.vbo.spec_id(),
            r.vbo.usage == self.vbo.usage,
    {
        let mut s = self;
        s.set_vertices(new_vertices);
        s
    }

    /// Buffer indices to the associated EBO, returning `self`.
    pub fn indices(self, new_indices: &[I]) -> (r: Self)
        requires
            new_indices@.len() <= i32::MAX,
        ensures
            r == (Mesh { indices: r.indices, ebo: r.ebo, primitive_num: r.primitive_num, ..self }),
            r.indices@ == new_indices@,
            r.primitive_num == new_indices@.len(),
            r.ebo.spec_buffered_len() == new_indices@.len(),
            r.ebo.spec_id() == self.ebo.spec_id(),
            r.ebo.usage == self.ebo.usage,
    {
        let mut s = self;
        s.set_indices(new_indices);
        s
    }

    /// Set the associated shader program, returning `self`.
    pub fn shader(self, new_shader: ShaderProgram) -> (r: Self)
        ensures
            r == (Mesh { shader: new_shader, ..self }),
    {
        Mesh { shader: new_shader, ..self }
    }

    /// Set the associated textures, returning `self`.
    pub fn textures(self, new_textures: Vec<Texture2D>) -> (r: Self)
        ensures
            r == (Mesh { textures: new_textures, ..self }),
    {
        Mesh { textures: new_textures, ..self }
    }

    /// Set the usage of the mesh's vertex buffer, returning `self`.
    pub fn usage(self, new_usage: u32) -> (r: Self)
        ensures
            r == (Mesh { vbo: r.vbo, ..self }),
            r.vbo.spec_id() == self.vbo.spec_id(),
            r.vbo.usage == new_usage,
            r.vbo.spec_buffered_len() == self.vbo.spec_buffered_len(),
    {
        let vbo = self.vbo.usage(new_usage);
        Mesh { vbo, ..self }
    }

    /// Set the layout of the data, returning `self`.
    pub fn layout(self, new_layout: Vec<VertexAttribute>) -> (r: Self)
        requires
            spec_layout_sum(new_layout@) <= u32::MAX,
        ensures
            r == (Mesh { vao: r.vao, ..self }),
            r.vao.spec_id() == self.vao.spec_id(),
            r.vao.size == self.vao.size,
            r.vao.layout@ == new_layout@,
            r.vao.stride == spec_layout_sum(new_layout@),
    {
        let mut s = self;
        s.set_layout(new_layout);
        s
    }

    /// Set the primitive to use for drawing, returning `self`.
    pub fn primitive(self, new_primitive: u32) -> (r: Self)
        ensures
            r == (Mesh { primitive: new_primitive, ..self }),
    {
        Mesh { primitive: new_primitive, ..self }
    }

    /// Buffer vertices to the associated VBO inplace, without returning
    /// anything.
    pub fn set_vertices(&mut self, new_vertices: &[U])
        ensures
            *final(self) == (Mesh {
                vertices: final(self).vertices,
                vbo: final(self).vbo,
                ..*old(self)
            }),
            final(self).vertices@ == new_vertices@,
            final(self).vbo.spec_buffered_len() == new_vertices@.len(),
            final(self).vbo.spec_id() == old(self).vbo.spec_id(),
            final(self).vbo.usage == old(self).vbo.usage,
    {
        self.vbo.buffer_data(new_vertices);
        self.vertices = slice_to_vec(new_vertices);
    }

    /// Buffer indices to the associated EBO inplace, without returning
    /// anything.  The primitive count becomes the number of indices.
    pub fn set_indices(&mut self, new_indices: &[I])
        requires
            new_indices@.len() <= i32::MAX,
        ensures
            *final(self) == (Mesh {
                indices: final(self).indices,
                ebo: final(self).ebo,
                primitive_num: final(self).primitive_num,
                ..*old(self)
            }),
            final(self).indices@ == new_indices@,
            final(self).primitive_num == new_indices@.len(),
            final(self).ebo.spec_buffered_len() == new_indices@.len(),
            final(self).ebo.spec_id() == old(self).ebo.spec_id(),
            final(self).ebo.usage == old(self).ebo.usage,
    {
        self.ebo.buffer_data(new_indices);
        self.indices = slice_to_vec(new_indices);
        self.primitive_num = self.indices.len() as i32;
    }

    /// Set the usage of the mesh inplace, without returning anything.  Both
    /// the vertex and the element buffer take the new usage.
    pub fn set_usage(&mut self, new_usage: u32)
        ensures
            *final(self) == (Mesh { vbo: final(self).vbo, ebo: final(self).ebo, ..*old(self) }),
            final(self).vbo.spec_id() == old(self).vbo.spec_id(),
            final(self).vbo.usage == new_usage,
            final(self).vbo.spec_buffered_len() == old(self).vbo.spec_buffered_len(),
            final(self).ebo.spec_id() == old(self).ebo.spec_id(),
            final(self).ebo.usage == new_usage,
            final(self).ebo.spec_buffered_len() == old(self).ebo.spec_buffered_len(),
    {
        self.vbo = self.vbo.usage(new_usage);
        self.ebo = self.ebo.usage(new_usage);
    }

    /// Set the layout of the data inplace, without returning anything.
    pub fn set_layout(&mut self, new_layout: Vec<VertexAttribute>)
        requires
            spec_layout_sum(new_layout@) <= u32::MAX,
        ensures
            *final(self) == (Mesh { vao: final(self).vao, ..*old(self) }),
            final(self).vao.spec_id() == old(self).vao.spec_id(),
            final(self).vao.size == old(self).vao.size,
            final(self).vao.layout@ == new_layout@,
            final(self).vao.stride == spec_layout_sum(new_layout@),
    {
        self.vao.set_layout(new_layout);
    }

    /// Set the model matrix, returning `self`.
    pub fn model_mat(self, new_model_mat: [[i64; 4]; 4]) -> (r: Self)
        ensures
            r == (Mesh { model_mat: new_model_mat, ..self }),
    {
        Mesh { model_mat: new_model_mat, ..self }
    }

    /// Set the view matrix, returning `self`.
    pub fn view_mat(self, new_view_mat: [[i64; 4]; 4]) -> (r: Self)
        ensures
            r == (Mesh { view_mat: new_view_mat, ..self }),
    {
        Mesh { view_mat: new_view_mat, ..self }
    }

    /// Set the projection matrix, returning `self`.
    pub fn projection_mat(self, new_projection_mat: [[i64; 4]; 4]) -> (r: Self)
        ensures
            r == (Mesh { projection_mat: new_projection_mat, ..self }),
    {
        Mesh { projection_mat: new_projection_mat, ..self }
    }
}

} // verus!
