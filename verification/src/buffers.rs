//! Descriptions of the GPU data buffers and of the vertex layout.
//!
//! Element, vertex and uniform buffers are known by the id the driver
//! assigned them, a usage hint, and how many elements were last buffered to
//! them.  A vertex array describes how the numbers in a vertex buffer group
//! into attributes; `update` turns that description into the stride and
//! byte-offset parameters the driver's attribute-pointer call takes, and its
//! contract states each offset as the scaled sum of the sizes of the
//! attributes before it.

use vstd::prelude::*;

use crate::glenum;
use crate::types::HasID;

verus! {

/// Object that represents a buffer to the GPU.
pub trait Buffer {
    /// How many elements were last buffered to this object.
    spec fn spec_buffered_len(&self) -> int;

    /// Record that `data` is buffered to this space in GPU memory.
    fn buffer_data<T>(&mut self, data: &[T])
        ensures
            final(self).spec_buffered_len() == data@.len(),
    ;
}

/// Element buffer object, which contains triangle data stored in the GPU.
#[derive(Copy, Clone, Debug)]
pub struct ElementBuffer {
    /// Unique id the driver assigned the object.
    pub id: u32,
    /// Usage of the data.
    pub usage: u32,
    /// Number of elements last buffered to the object.
    pub buffered_len: usize,
}

impl ElementBuffer {
    /// The id the driver assigned the buffer.
    pub open spec fn spec_id(&self) -> u32 {
        self.id
    }

    /// Describe a new element buffer from the id the driver assigned it.
    pub fn new(id: u32) -> (e: Self)
        ensures
            e.spec_id() == id,
            e.usage == glenum::STATIC_DRAW,
            e.spec_buffered_len() == 0,
    {
        ElementBuffer { id, usage: glenum::STATIC_DRAW, buffered_len: 0 }
    }

    /// Set the usage of the element buffer.
    pub fn usage(self, new_usage: u32) -> (r: Self)
        ensures
            r.spec_id() == self.spec_id(),
            r.usage == new_usage,
            r.spec_buffered_len() == self.spec_buffered_len(),
    {
        ElementBuffer { usage: new_usage, ..self }
    }
}

impl Buffer for ElementBuffer {
    open spec fn spec_buffered_len(&self) -> int {
        self.buffered_len as int
    }

    fn buffer_data<T>(&mut self, data: &[T])
        ensures
            final(self).spec_id() == old(self).spec_id(),
            final(self).usage == old(self).usage,
    {
        self.buffered_len = data.len();
    }
}

/// Vertex buffer object, which contains vertex data stored in the GPU.
#[derive(Clone, Copy, Debug)]
pub struct VertexBuffer {
    /// Unique id the driver assigned the object.
    pub id: u32,
    /// Usage of the data.
    pub usage: u32,
    /// Number of elements last buffered to the object.
    pub buffered_len: usize,
}

impl HasID for VertexBuffer {
    open spec fn spec_id(&self) -> u32 {
        self.id
    }

    fn get_id(&self) -> (r: u32)
        ensures
            r == self.spec_id(),
    {
        self.id
    }
}

impl VertexBuffer {
    /// Describe a new vertex buffer from the id the driver assigned it.
    pub fn new(id: u32) -> (v: Self)
        ensures
            v.spec_id() == id,
            v.usage == glenum::STATIC_DRAW,
            v.spec_buffered_len() == 0,
    {
        VertexBuffer { id, usage: glenum::STATIC_DRAW, buffered_len: 0 }
    }

    /// Set the usage of the vertex buffer.
    pub fn usage(self, new_usage: u32) -> (r: Self)
        ensures
            r.spec_id() == self.spec_id(),
            r.usage == new_usage,
            r.spec_buffered_len() == self.spec_buffered_len(),
    {
        VertexBuffer { usage: new_usage, ..self }
    }
}

impl Buffer for VertexBuffer {
    open spec fn spec_buffered_len(&self) -> int {
        self.buffered_len as int
    }

    fn buffer_data<T>(&mut self, data: &[T])
        ensures
            final(self).spec_id() == old(self).spec_id(),
            final(self).usage == old(self).usage,
    {
        self.buffered_len = data.len();
    }
}

/// Uniform buffer object, which contains uniform data stored in the GPU.
#[derive(Clone, Copy, Debug)]
pub struct UniformBuffer {
    /// Unique id the driver assigned the object.
    pub id: u32,
    /// Size of the data.
    pub size: u32,
    /// Usage of the data.
    pub usage: u32,
    /// Number of elements last buffered to the object.
    pub buffered_len: usize,
}

impl HasID for UniformBuffer {
    open spec fn spec_id(&self) -> u32 {
        self.id
    }

    fn get_id(&self) -> (r: u32)
        ensures
            r == self.spec_id(),
    {
        self.id
    }
}

impl UniformBuffer {
    /// Describe a new uniform buffer of `size` bytes from the id the driver
    /// assigned it.
    pub fn new(id: u32, size: u32) -> (u: Self)
        ensures
            u.spec_id() == id,
            u.size == size,
            u.usage == glenum::STATIC_DRAW,
            u.spec_buffered_len() == 0,
    {
        UniformBuffer { id, size, usage: glenum::STATIC_DRAW, buffered_len: 0 }
    }

    /// Set the usage of the uniform buffer.
    pub fn usage(self, new_usage: u32) -> (r: Self)
        ensures
            r.spec_id() == self.spec_id(),
            r.size == self.size,
            r.usage == new_usage,
            r.spec_buffered_len() == self.spec_buffered_len(),
    {
        UniformBuffer { usage: new_usage, ..self }
    }
}

impl Buffer for UniformBuffer {
    open spec fn spec_buffered_len(&self) -> int {
        self.buffered_len as int
    }

    fn buffer_data<T>(&mut self, data: &[T])
        ensures
            final(self).spec_id() == old(self).spec_id(),
            final(self).size == old(self).size,
            final(self).usage == old(self).usage,
    {
        self.buffered_len = data.len();
    }
}

/// Vertex attribute: one group of numbers within a vertex.
#[derive(Copy, Clone, Debug, PartialEq, Eq, Structural)]
pub struct VertexAttribute {
    /// Position of the attribute within the vertex layout.
    pub location: usize,
    /// Number of elements in the attribute.
    pub size: u32,
    /// Data type of the attribute.
    pub data_type: u32,
}

impl VertexAttribute {
    /// Describe an attribute from its location, element count and type.
    pub fn new(location: usize, size: u32, data_type: u32) -> (a: Self)
        ensures
            a == (VertexAttribute { location, size, data_type }),
    {
        VertexAttribute { location, size, data_type }
    }
}

impl Default for VertexAttribute {
    /// An empty attribute of 32-bit floats at location zero.
    fn default() -> (a: Self)
        ensures
            a == (VertexAttribute { location: 0, size: 0, data_type: glenum::FLOAT }),
    {
        VertexAttribute { location: 0, size: 0, data_type: glenum::FLOAT }
    }
}

/// The parameters of one attribute-pointer call: where the attribute sits
/// and how the driver steps through the buffer to read it.
#[derive(Copy, Clone, Debug, PartialEq, Eq, Structural)]
pub struct AttribPointer {
    /// Position of the attribute within the vertex layout.
    pub location: usize,
    /// Number of elements in the attribute.
    pub size: u32,
    /// Data type of the attribute.
    pub data_type: u32,
    /// Bytes from the start of one vertex to the start of the next.
    pub stride_bytes: u32,
    /// Bytes from the start of a vertex to this attribute.
    pub offset_bytes: u32,
}

/// Sum of the element counts of the first `k` attributes of a layout.
pub open spec fn spec_layout_sum_to(layout: Seq<VertexAttribute>, k: int) -> int
    decreases k,
{
    if k <= 0 {
        0
    } else {
        spec_layout_sum_to(layout, k - 1) + layout[k - 1].size
    }
}

/// Sum of the element counts of all attributes of a layout: the stride of
/// the vertex, in elements.
pub open spec fn spec_layout_sum(layout: Seq<VertexAttribute>) -> int {
    spec_layout_sum_to(layout, layout.len() as int)
}

/// Partial sums of a layout's element counts never decrease.
pub proof fn lemma_layout_sum_monotone(layout: Seq<VertexAttribute>, j: int, k: int)
    requires
        j <= k,
    ensures
        spec_layout_sum_to(layout, j) <= spec_layout_sum_to(layout, k),
    decreases k - j,
{
    if j < k {
        lemma_layout_sum_monotone(layout, j, k - 1);
    }
}

/// A product does not shrink when one non-negative factor grows.
proof fn lemma_mul_le(a: int, b: int, c: int)
    by (nonlinear_arith)
    requires
        0 <= a,
        0 <= b <= c,
    ensures
        a * b <= a * c,
{
}

/// Vertex array that specifies the vertex layout on GPU memory.
#[derive(Clone, Debug)]
pub struct VertexArray {
    /// Unique id the driver assigned the object.
    pub id: u32,
    /// Number of elements in each vertex.
    pub stride: u32,
    /// Size in bytes of each element.
    pub size: u32,
    /// Layout in GPU memory of the vertex.
    pub layout: Vec<VertexAttribute>,
}

impl HasID for VertexArray {
    open spec fn spec_id(&self) -> u32 {
        self.id
    }

    fn get_id(&self) -> (r: u32)
        ensures
            r == self.spec_id(),
    {
        self.id
    }
}

impl VertexArray {
    /// Describe a new vertex array from the id the driver assigned it, with
    /// an empty layout and four-byte elements.
    pub fn new(id: u32) -> (v: Self)
        ensures
            v.spec_id() == id,
            v.stride == 0,
            v.size == 4,
            v.layout@ == Seq::<VertexAttribute>::empty(),
    {
        VertexArray { id, stride: 0, size: 4, layout: Vec::new() }
    }

    /// Set the size in bytes of each number.
    pub fn size(self, new_size: u32) -> (r: Self)
        ensures
            r.spec_id() == self.spec_id(),
            r.stride == self.stride,
            r.size == new_size,
            r.layout@ == self.layout@,
    {
        VertexArray { size: new_size, ..self }
    }

    /// Specify the layout of the vertex array, returning `self`.  The
    /// stride becomes the sum of the attributes' element counts.
    ///
    /// For example, if your vertex has 3 spatial coordinates, 3 colors
    /// (RGB) and 2 UV coordinates, then the layout would be (3, 3, 2).
    pub fn layout(self, new_layout: Vec<VertexAttribute>) -> (r: Self)
        requires
            spec_layout_sum(new_layout@) <= u32::MAX,
        ensures
            r.spec_id() == self.spec_id(),
            r.size == self.size,
            r.layout@ == new_layout@,
            r.stride == spec_layout_sum(new_layout@),
    {
        let mut s = self;
        s.set_layout(new_layout);
        s
    }

    /// Specify the layout of the vertex array in place.  The stride becomes
    /// the sum of the attributes' element counts.
    ///
    /// For example, if your vertex has 3 spatial coordinates, 3 colors
    /// (RGB) and 2 UV coordinates, then the layout would be (3, 3, 2).
    pub fn set_layout(&mut self, new_layout: Vec<VertexAttribute>)
        requires
            spec_layout_sum(new_layout@) <= u32::MAX,
        ensures
            final(self).spec_id() == old(self).spec_id(),
            final(self).size == old(self).size,
            final(self).layout@ == new_layout@,
            final(self).stride == spec_layout_sum(new_layout@),
    {
        let mut stride: u32 = 0;
        let mut i: usize = 0;
        while i < new_layout.len()
            invariant
                i <= new_layout@.len(),
                stride as int == spec_layout_sum_to(new_layout@, i as int),
                spec_layout_sum(new_layout@) <= u32::MAX,
            decreases new_layout@.len() - i,
        {
            proof {
                lemma_layout_sum_monotone(new_layout@, i as int + 1, new_layout@.len() as int);
                lemma_layout_sum_monotone(new_layout@, 0, i as int + 1);
            }
            stride = stride + new_layout[i].size;
            i = i + 1;
        }
        self.layout = new_layout;
        self.stride = stride;
    }

    /// Compute the attribute-pointer parameters the layout calls for: one
    /// record per attribute, whose byte offset scales the element counts of
    /// the attributes before its location by the element size, and whose
    /// byte stride scales the vertex stride the same way.
    pub fn update(&self) -> (r: Vec<AttribPointer>)
        requires
            forall|i: int|
                0 <= i < self.layout@.len() ==> (#[trigger] self.layout@[i]).location
                    <= self.layout@.len(),
            spec_layout_sum(self.layout@) <= u32::MAX,
            self.size * spec_layout_sum(self.layout@) <= u32::MAX,
            self.size * self.stride <= u32::MAX,
        ensures
            r@.len() == self.layout@.len(),
            forall|i: int|
                0 <= i < r@.len() ==> #[trigger] r@[i] == (AttribPointer {
                    location: self.layout@[i].location,
                    size: self.layout@[i].size,
                    data_type: self.layout@[i].data_type,
                    stride_bytes: (self.size * self.stride) as u32,
                    offset_bytes: (self.size * spec_layout_sum_to(
                        self.layout@,
                        self.layout@[i].location as int,
                    )) as u32,
                }),
    {
        let stride_bytes = self.size * self.stride;
        let mut r: Vec<AttribPointer> = Vec::new();
        let mut i: usize = 0;
        while i < self.layout.len()
            invariant
                i <= self.layout@.len(),
                r@.len() == i,
                forall|k: int|
                    0 <= k < self.layout@.len() ==> (#[trigger] self.layout@[k]).location
                        <= self.layout@.len(),
                spec_layout_sum(self.layout@) <= u32::MAX,
                self.size * spec_layout_sum(self.layout@) <= u32::MAX,
                self.size * self.stride <= u32::MAX,
                stride_bytes == self.size * self.stride,
                forall|k: int|
                    0 <= k < i ==> #[trigger] r@[k] == (AttribPointer {
                        location: self.layout@[k].location,
                        size: self.layout@[k].size,
                        data_type: self.layout@[k].data_type,
                        stride_bytes: (self.size * self.stride) as u32,
                        offset_bytes: (self.size * spec_layout_sum_to(
                            self.layout@,
                            self.layout@[k].location as int,
                        )) as u32,
                    }),
            decreases self.layout@.len() - i,
        {
            let attr = self.layout[i];
            let mut prefix: u32 = 0;
            let mut j: usize = 0;
            while j < attr.location
                invariant
                    j <= attr.location,
                    attr.location <= self.layout@.len(),
                    prefix as int == spec_layout_sum_to(self.layout@, j as int),
                    spec_layout_sum(self.layout@) <= u32::MAX,
                decreases attr.location - j,
            {
                proof {
                    lemma_layout_sum_monotone(self.layout@, j as int + 1, self.layout@.len() as int);
                    lemma_layout_sum_monotone(self.layout@, 0, j as int + 1);
                }
                prefix = prefix + self.layout[j].size;
                j = j + 1;
            }
            proof {
                lemma_layout_sum_monotone(self.layout@, 0, attr.location as int);
                lemma_layout_sum_monotone(
                    self.layout@,
                    attr.location as int,
                    self.layout@.len() as int,
                );
                lemma_mul_le(
                    self.size as int,
                    spec_layout_sum_to(self.layout@, attr.location as int),
                    spec_layout_sum(self.layout@),
                );
            }
            let offset_bytes = self.size * prefix;
            r.push(
                AttribPointer {
                    location: attr.location,
                    size: attr.size,
                    data_type: attr.data_type,
                    stride_bytes,
                    offset_bytes,
                },
            );
            i = i + 1;
        }
        r
    }
}

impl Default for VertexArray {
    /// A vertex array description with id zero, an empty layout and
    /// four-byte elements.
    fn default() -> (v: Self)
        ensures
            v.spec_id() == 0,
            v.stride == 0,
            v.size == 4,
            v.layout@ == Seq::<VertexAttribute>::empty(),
    {
        VertexArray::new(0)
    }
}

} // verus!
