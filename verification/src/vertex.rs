//! How one vertex lies in memory: a position of three components, a color
//! of three and a texture coordinate of two, each component four bytes wide.

use vstd::prelude::*;
use crate::vk::{FORMAT_R32G32B32_SFLOAT, FORMAT_R32G32_SFLOAT, VERTEX_INPUT_RATE_VERTEX};

verus! {

/// The bytes that one component takes.
pub const COMPONENT_BYTES: u32 = 4;

/// The components of a position.
pub const POSITION_COMPONENTS: u32 = 3;

/// The components of a color.
pub const COLOR_COMPONENTS: u32 = 3;

/// The components of a texture coordinate.
pub const TEX_COORD_COMPONENTS: u32 = 2;

/// The bytes from one vertex to the next.
pub const VERTEX_STRIDE: u32 = 32;

/// From which binding vertices are read, and how far apart they lie.
#[derive(Clone, Copy, Debug, PartialEq, Eq, Structural)]
pub struct VertexInputBindingDescription {
    pub binding: u32,
    pub stride: u32,
    pub input_rate: u32,
}

/// Where one attribute of a vertex lies and which format it has.
#[derive(Clone, Copy, Debug, PartialEq, Eq, Structural)]
pub struct VertexInputAttributeDescription {
    pub location: u32,
    pub binding: u32,
    pub format: u32,
    pub offset: u32,
}

/// The three attributes of a vertex.
#[derive(Clone, Copy, Debug, PartialEq, Eq, Structural)]
pub struct VertexAttributes {
    pub position: VertexInputAttributeDescription,
    pub color: VertexInputAttributeDescription,
    pub tex_coord: VertexInputAttributeDescription,
}

/// The binding of the vertex buffer: binding 0, read once per vertex.
pub open spec fn spec_binding_description() -> VertexInputBindingDescription {
    VertexInputBindingDescription {
        binding: 0,
        stride: VERTEX_STRIDE,
        input_rate: VERTEX_INPUT_RATE_VERTEX,
    }
}

/// The attributes of a vertex: each at the location of its rank, and at the
/// offset where the attributes before it end.
pub open spec fn spec_vertex_attributes() -> VertexAttributes {
    VertexAttributes {
        position: VertexInputAttributeDescription {
            location: 0,
            binding: 0,
            format: FORMAT_R32G32B32_SFLOAT,
            offset: 0,
        },
        color: VertexInputAttributeDescription {
            location: 1,
            binding: 0,
            format: FORMAT_R32G32B32_SFLOAT,
            offset: 12,
        },
        tex_coord: VertexInputAttributeDescription {
            location: 2,
            binding: 0,
            format: FORMAT_R32G32_SFLOAT,
            offset: 24,
        },
    }
}

/// The binding of the vertex buffer.
pub fn binding_description() -> (binding: VertexInputBindingDescription)
    ensures
        binding == spec_binding_description(),
        binding.stride == COMPONENT_BYTES * (POSITION_COMPONENTS + COLOR_COMPONENTS
            + TEX_COORD_COMPONENTS),
{
    VertexInputBindingDescription {
        binding: 0,
        stride: COMPONENT_BYTES * (POSITION_COMPONENTS + COLOR_COMPONENTS + TEX_COORD_COMPONENTS),
        input_rate: VERTEX_INPUT_RATE_VERTEX,
    }
}

/// The three attributes of a vertex, by name.
pub fn vertex_attributes() -> (attributes: VertexAttributes)
    ensures
        attributes == spec_vertex_attributes(),
{
    let color_offset: u32 = COMPONENT_BYTES * POSITION_COMPONENTS;
    let tex_coord_offset: u32 = color_offset + COMPONENT_BYTES * COLOR_COMPONENTS;
    VertexAttributes {
        position: VertexInputAttributeDescription {
            location: 0,
            binding: 0,
            format: FORMAT_R32G32B32_SFLOAT,
            offset: 0,
        },
        color: VertexInputAttributeDescription {
            location: 1,
            binding: 0,
            format: FORMAT_R32G32B32_SFLOAT,
            offset: color_offset,
        },
        tex_coord: VertexInputAttributeDescription {
            location: 2,
            binding: 0,
            format: FORMAT_R32G32_SFLOAT,
            offset: tex_coord_offset,
        },
    }
}

/// The three attributes of a vertex, in the order of their locations.
pub fn attribute_descriptions() -> (attributes: [VertexInputAttributeDescription; 3])
    ensures
        attributes@ == seq![
            spec_vertex_attributes().position,
            spec_vertex_attributes().color,
            spec_vertex_attributes().tex_coord,
        ],
{
    let named = vertex_attributes();
    let attributes = [named.position, named.color, named.tex_coord];
    assert(attributes@ =~= seq![
        spec_vertex_attributes().position,
        spec_vertex_attributes().color,
        spec_vertex_attributes().tex_coord,
    ]);
    attributes
}

} // verus!
