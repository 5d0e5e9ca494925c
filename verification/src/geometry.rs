//! Static geometry upload: the vertex-buffer request, its exact byte
//! content, and the memory-type search.

use vstd::prelude::*;

verus! {

use vstd::bytes::lemma_auto_spec_u32_to_from_le_bytes;
use crate::error::VulkanError;
use crate::swapchain::SharingMode;
use crate::vertex::{spec_triangle_vertices, spec_vertex_bytes, triangle_vertices, vertex_bytes};

/// Memory-property bit: the host can map the memory.
pub const MEMORY_PROPERTY_HOST_VISIBLE: u32 = 0x2;

/// Memory-property bit: host writes need no explicit flush.
pub const MEMORY_PROPERTY_HOST_COHERENT: u32 = 0x4;

/// Size in bytes of the fixed vertex set: three vertices of twenty bytes.
pub const VERTEX_BUFFER_SIZE: u64 = 60;

/// The exact byte content of the vertex buffer: the three fixed vertices,
/// serialized in order.
pub open spec fn spec_triangle_bytes() -> Seq<u8> {
    spec_vertex_bytes(spec_triangle_vertices()[0]) + spec_vertex_bytes(spec_triangle_vertices()[1])
        + spec_vertex_bytes(spec_triangle_vertices()[2])
}

/// What the vertex buffer is created with.
#[derive(Clone, Copy, Debug, PartialEq, Eq, Structural)]
pub struct BufferConfig {
    pub size: u64,
    pub usage_vertex_buffer: bool,
    pub sharing_mode: SharingMode,
    /// The memory backing the buffer must be host-visible and
    /// host-coherent, as the upload maps and writes it directly.
    pub required_memory_properties: u32,
}

/// The fixed vertex-buffer request: sixty bytes of vertex data, owned
/// exclusively by the graphics family, in host-mappable coherent memory.
pub fn vertex_buffer_config() -> (r: BufferConfig)
    ensures
        r.size == VERTEX_BUFFER_SIZE,
        r.size == spec_triangle_bytes().len(),
        r.usage_vertex_buffer,
        r.sharing_mode == SharingMode::Exclusive,
        r.required_memory_properties == (MEMORY_PROPERTY_HOST_VISIBLE
            | MEMORY_PROPERTY_HOST_COHERENT),
{
    proof {
        lemma_auto_spec_u32_to_from_le_bytes();
    }
    BufferConfig {
        size: VERTEX_BUFFER_SIZE,
        usage_vertex_buffer: true,
        sharing_mode: SharingMode::Exclusive,
        required_memory_properties: MEMORY_PROPERTY_HOST_VISIBLE | MEMORY_PROPERTY_HOST_COHERENT,
    }
}

/// Serializes the fixed vertex set to the bytes the upload writes into the
/// mapped memory, verbatim and exactly once.
pub fn triangle_bytes() -> (r: Vec<u8>)
    ensures
        r@ == spec_triangle_bytes(),
        r@.len() == VERTEX_BUFFER_SIZE,
{
    let vertices = triangle_vertices();
    let mut buf: Vec<u8> = Vec::new();
    let mut v0 = vertex_bytes(&vertices[0]);
    let mut v1 = vertex_bytes(&vertices[1]);
    let mut v2 = vertex_bytes(&vertices[2]);
    buf.append(&mut v0);
    buf.append(&mut v1);
    buf.append(&mut v2);
    proof {
        lemma_auto_spec_u32_to_from_le_bytes();
        assert(buf@ =~= spec_triangle_bytes());
    }
    buf
}

/// Whether memory type `i` is admissible: the buffer's requirements name
/// it, and it has every required property bit.
pub open spec fn spec_memory_type_matches(
    type_flags: Seq<u32>,
    type_filter: u32,
    required: u32,
    i: int,
) -> bool {
    &&& 0 <= i < type_flags.len()
    &&& (type_filter >> (i as u32)) & 1 == 1
    &&& type_flags[i] & required == required
}

/// Finds the first memory type that the buffer's requirement filter names
/// and that has all required property bits.
///
/// `type_flags` holds each memory type's property bits, in table order;
/// the table never exceeds the API's thirty-two entries. Fails exactly
/// when no type matches.
pub fn find_memory_type(type_flags: &Vec<u32>, type_filter: u32, required: u32) -> (r: Result<
    u32,
    VulkanError,
>)
    requires
        type_flags@.len() <= 32,
    ensures
        r matches Ok(i) ==> spec_memory_type_matches(type_flags@, type_filter, required, i as int)
            && (forall|j: int|
            0 <= j < i ==> !spec_memory_type_matches(type_flags@, type_filter, required, j)),
        r matches Err(e) ==> e == VulkanError::MemoryTypeNotFound,
        (r is Err) <==> (forall|j: int|
            !spec_memory_type_matches(type_flags@, type_filter, required, j)),
{
    let mut i: usize = 0;
    while i < type_flags.len()
        invariant
            type_flags@.len() <= 32,
            i <= type_flags@.len(),
            forall|j: int|
                0 <= j < i ==> !spec_memory_type_matches(type_flags@, type_filter, required, j),
        decreases type_flags@.len() - i,
    {
        if (type_filter >> (i as u32)) & 1 == 1 && type_flags[i] & required == required {
            proof {
                assert(spec_memory_type_matches(type_flags@, type_filter, required, i as int));
            }
            return Ok(i as u32);
        }
        i = i + 1;
    }
    Err(VulkanError::MemoryTypeNotFound)
}

} // verus!
