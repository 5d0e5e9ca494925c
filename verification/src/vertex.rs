//! The fixed triangle geometry and its vertex layout.
//!
//! A vertex is a two-component position followed by a three-component
//! color, twenty bytes in all; each component is carried as the IEEE-754
//! bit pattern of the intended single-precision value.

use vstd::prelude::*;

verus! {

use vstd::bytes::{spec_u32_to_le_bytes, u32_to_le_bytes};
use crate::float_bits::{F32_HALF_BITS, F32_NEG_HALF_BITS, F32_ONE_BITS, F32_ZERO_BITS};

/// Byte stride of one vertex: two position components and three color
/// components, four bytes each.
pub const VERTEX_STRIDE: u32 = 20;

/// Byte offset of the position inside a vertex.
pub const POSITION_OFFSET: u32 = 0;

/// Byte offset of the color inside a vertex.
pub const COLOR_OFFSET: u32 = 8;

/// Raw value of the two-component single-precision attribute format.
pub const FORMAT_R32G32_SFLOAT: u32 = 103;

/// Raw value of the three-component single-precision attribute format.
pub const FORMAT_R32G32B32_SFLOAT: u32 = 106;

/// One vertex: position and color, as single-precision bit patterns.
#[derive(Clone, Copy, Debug, PartialEq, Eq, Structural)]
pub struct VertexData {
    pub pos_x_bits: u32,
    pub pos_y_bits: u32,
    pub color_r_bits: u32,
    pub color_g_bits: u32,
    pub color_b_bits: u32,
}

/// How the vertex buffer is walked: one binding, twenty bytes per vertex,
/// advancing per vertex rather than per instance.
#[derive(Clone, Copy, Debug, PartialEq, Eq, Structural)]
pub struct VertexBindingDescription {
    pub binding: u32,
    pub stride: u32,
    pub input_rate_per_vertex: bool,
}

/// One attribute the shaders read: its location, format and byte offset.
#[derive(Clone, Copy, Debug, PartialEq, Eq, Structural)]
pub struct VertexAttributeDescription {
    pub binding: u32,
    pub location: u32,
    pub format: u32,
    pub offset: u32,
}

/// The three fixed vertices: a red top vertex, a green lower-right vertex
/// and a blue lower-left vertex.
pub open spec fn spec_triangle_vertices() -> Seq<VertexData> {
    seq![
        VertexData {
            pos_x_bits: F32_ZERO_BITS,
            pos_y_bits: F32_NEG_HALF_BITS,
            color_r_bits: F32_ONE_BITS,
            color_g_bits: F32_ZERO_BITS,
            color_b_bits: F32_ZERO_BITS,
        },
        VertexData {
            pos_x_bits: F32_HALF_BITS,
            pos_y_bits: F32_HALF_BITS,
            color_r_bits: F32_ZERO_BITS,
            color_g_bits: F32_ONE_BITS,
            color_b_bits: F32_ZERO_BITS,
        },
        VertexData {
            pos_x_bits: F32_NEG_HALF_BITS,
            pos_y_bits: F32_HALF_BITS,
            color_r_bits: F32_ZERO_BITS,
            color_g_bits: F32_ZERO_BITS,
            color_b_bits: F32_ONE_BITS,
        },
    ]
}

/// The fixed vertex set, uploaded once and never mutated afterwards.
pub fn triangle_vertices() -> (r: Vec<VertexData>)
    ensures
        r@ == spec_triangle_vertices(),
{
    let mut vertices: Vec<VertexData> = Vec::new();
    vertices.push(
        VertexData {
            pos_x_bits: F32_ZERO_BITS,
            pos_y_bits: F32_NEG_HALF_BITS,
            color_r_bits: F32_ONE_BITS,
            color_g_bits: F32_ZERO_BITS,
            color_b_bits: F32_ZERO_BITS,
        },
    );
    vertices.push(
        VertexData {
            pos_x_bits: F32_HALF_BITS,
            pos_y_bits: F32_HALF_BITS,
            color_r_bits: F32_ZERO_BITS,
            color_g_bits: F32_ONE_BITS,
            color_b_bits: F32_ZERO_BITS,
        },
    );
    vertices.push(
        VertexData {
            pos_x_bits: F32_NEG_HALF_BITS,
            pos_y_bits: F32_HALF_BITS,
            color_r_bits: F32_ZERO_BITS,
            color_g_bits: F32_ZERO_BITS,
            color_b_bits: F32_ONE_BITS,
        },
    );
    proof {
        assert(vertices@ =~= spec_triangle_vertices());
    }
    vertices
}

/// The little-endian bytes of one vertex, in field order.
pub open spec fn spec_vertex_bytes(v: VertexData) -> Seq<u8> {
    spec_u32_to_le_bytes(v.pos_x_bits) + spec_u32_to_le_bytes(v.pos_y_bits) + spec_u32_to_le_bytes(
        v.color_r_bits,
    ) + spec_u32_to_le_bytes(v.color_g_bits) + spec_u32_to_le_bytes(v.color_b_bits)
}

/// Appends one value's little-endian bytes to a byte buffer.
fn push_u32_le(buf: &mut Vec<u8>, x: u32)
    ensures
        final(buf)@ == old(buf)@ + spec_u32_to_le_bytes(x),
{
    let mut bytes = u32_to_le_bytes(x);
    buf.append(&mut bytes);
}

/// Serializes one vertex to its twenty little-endian bytes.
pub fn vertex_bytes(v: &VertexData) -> (r: Vec<u8>)
    ensures
        r@ == spec_vertex_bytes(*v),
{
    let mut buf: Vec<u8> = Vec::new();
    push_u32_le(&mut buf, v.pos_x_bits);
    push_u32_le(&mut buf, v.pos_y_bits);
    push_u32_le(&mut buf, v.color_r_bits);
    push_u32_le(&mut buf, v.color_g_bits);
    push_u32_le(&mut buf, v.color_b_bits);
    proof {
        assert(buf@ =~= spec_vertex_bytes(*v));
    }
    buf
}

impl VertexData {
    /// The single vertex-buffer binding: binding zero, one vertex per
    /// twenty bytes.
    pub fn get_binding_description() -> (r: VertexBindingDescription)
        ensures
            r.binding == 0,
            r.stride == VERTEX_STRIDE,
            r.input_rate_per_vertex,
    {
        VertexBindingDescription { binding: 0, stride: VERTEX_STRIDE, input_rate_per_vertex: true }
    }

    /// The two attributes the shaders read: the two-float position at
    /// offset zero and the three-float color at offset eight.
    pub fn get_attribute_descriptions() -> (r: Vec<VertexAttributeDescription>)
        ensures
            r@.len() == 2,
            r@[0] == (VertexAttributeDescription {
                binding: 0,
                location: 0,
                format: FORMAT_R32G32_SFLOAT,
                offset: POSITION_OFFSET,
            }),
            r@[1] == (VertexAttributeDescription {
                binding: 0,
                location: 1,
                format: FORMAT_R32G32B32_SFLOAT,
                offset: COLOR_OFFSET,
            }),
    {
        let mut attrs: Vec<VertexAttributeDescription> = Vec::new();
        attrs.push(
            VertexAttributeDescription {
                binding: 0,
                location: 0,
                format: FORMAT_R32G32_SFLOAT,
                offset: POSITION_OFFSET,
            },
        );
        attrs.push(
            VertexAttributeDescription {
                binding: 0,
                location: 1,
                format: FORMAT_R32G32B32_SFLOAT,
                offset: COLOR_OFFSET,
            },
        );
        attrs
    }
}

} // verus!
