//! The static geometry's vertex layout: each vertex interleaves a
//! four-component position and a four-component color, so the attribute
//! describing the color starts where the position ends and the stride is
//! the two together.

use vstd::prelude::*;

verus! {

/// The machine format of one vertex attribute.
#[derive(Copy, Clone, PartialEq, Eq, Structural, Debug)]
pub enum VertexFormat {
    /// Two 32-bit float components.
    Float2,
    /// Three 32-bit float components.
    Float3,
    /// Four 32-bit float components.
    Float4,
}

impl VertexFormat {
    /// How many bytes one attribute of this format occupies.
    pub open spec fn spec_byte_size(self) -> u64 {
        match self {
            VertexFormat::Float2 => 8,
            VertexFormat::Float3 => 12,
            VertexFormat::Float4 => 16,
        }
    }

    pub fn byte_size(self) -> (n: u64)
        ensures
            n == self.spec_byte_size(),
    {
        match self {
            VertexFormat::Float2 => 8,
            VertexFormat::Float3 => 12,
            VertexFormat::Float4 => 16,
        }
    }
}

/// One attribute of a vertex: where it starts inside the vertex, which
/// shader input slot reads it, and its format.
#[derive(Copy, Clone, PartialEq, Eq, Structural, Debug)]
pub struct VertexAttribute {
    pub offset: u64,
    pub shader_location: u32,
    pub format: VertexFormat,
}

/// The layout of one vertex buffer: the distance between consecutive
/// vertices and the attributes each vertex holds.
#[derive(PartialEq, Eq, Debug)]
pub struct VertexLayout {
    pub stride: u64,
    pub attributes: Vec<VertexAttribute>,
}

impl VertexLayout {
    /// A layout the device accepts: a non-zero stride, every attribute
    /// wholly inside it, attributes in increasing order without overlap,
    /// and no shader input slot taken twice.
    pub open spec fn wf(self) -> bool {
        &&& self.stride > 0
        &&& forall|i: int|
            0 <= i < self.attributes@.len() ==> (#[trigger] self.attributes@[i]).offset
                + self.attributes@[i].format.spec_byte_size() <= self.stride
        &&& forall|i: int, j: int|
            0 <= i < j < self.attributes@.len() ==> (#[trigger] self.attributes@[i]).offset
                + self.attributes@[i].format.spec_byte_size() <= (
            #[trigger] self.attributes@[j]).offset
        &&& forall|i: int, j: int|
            0 <= i < j < self.attributes@.len() ==> (
            #[trigger] self.attributes@[i]).shader_location != (
            #[trigger] self.attributes@[j]).shader_location
    }
}

/// The first attribute: the position, four floats at the vertex's start.
pub open spec fn position_attribute() -> VertexAttribute {
    VertexAttribute { offset: 0, shader_location: 0, format: VertexFormat::Float4 }
}

/// The second attribute: the color, four floats right after the position.
pub open spec fn color_attribute() -> VertexAttribute {
    VertexAttribute { offset: 16, shader_location: 1, format: VertexFormat::Float4 }
}

/// The layout of the static triangle's vertex buffer: position then color,
/// interleaved, 32 bytes per vertex. The color starts at byte 16, where
/// the four-float position ends, and the stride is the two together.
pub fn vertex_layout() -> (layout: VertexLayout)
    ensures
        layout.stride == 32,
        layout.attributes@.len() == 2,
        layout.attributes@[0] == position_attribute(),
        layout.attributes@[1] == color_attribute(),
        layout.wf(),
{
    let mut attributes: Vec<VertexAttribute> = Vec::new();
    attributes.push(VertexAttribute { offset: 0, shader_location: 0, format: VertexFormat::Float4 });
    attributes.push(
        VertexAttribute { offset: 16, shader_location: 1, format: VertexFormat::Float4 },
    );
    VertexLayout { stride: 32, attributes }
}

} // verus!
