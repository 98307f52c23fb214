//! Handles into the tables that other parts of the renderer own: the
//! render-task table, the GPU resource cache and the layer table. This module
//! holds them as the plain integers that the instance records pack.
use vstd::prelude::*;

verus! {

/// Width, in texels, of the vertex texture that the GPU cache is laid out in.
/// A cache address is packed as `row * MAX_VERTEX_TEXTURE_WIDTH + column`.
pub const MAX_VERTEX_TEXTURE_WIDTH: i32 = 1024;

/// A slot in the render-task table, as resolved by the render-task graph.
#[derive(Debug, Copy, Clone, PartialEq, Eq)]
pub struct RenderTaskAddress(pub u32);

/// An index into the packed layer table.
#[derive(Debug, Copy, Clone, PartialEq, Eq)]
pub struct PackedLayerIndex(pub usize);

/// A texel of the GPU resource cache: column `u` of row `v`.
#[derive(Debug, Copy, Clone, PartialEq, Eq)]
pub struct GpuCacheAddress {
    pub u: u16,
    pub v: u16,
}

impl RenderTaskAddress {
    /// The 32-bit signed word that a record holds for this address.
    pub open spec fn spec_as_int(self) -> i32 {
        self.0 as i32
    }
}

impl GpuCacheAddress {
    /// The address as one integer: its row times the texture width, plus its column.
    pub open spec fn packed(self) -> int {
        self.v * MAX_VERTEX_TEXTURE_WIDTH + self.u
    }

    pub open spec fn spec_as_int(self) -> i32 {
        self.packed() as i32
    }

    pub fn new(u: u16, v: u16) -> (r: GpuCacheAddress)
        ensures
            r.u == u,
            r.v == v,
    {
        GpuCacheAddress { u, v }
    }

    /// Encodes the address as a single integer for packing into a record.
    pub fn as_int(&self) -> (r: i32)
        ensures
            r == self.spec_as_int(),
            r as int == self.packed(),
    {
        self.v as i32 * MAX_VERTEX_TEXTURE_WIDTH + self.u as i32
    }
}

/// A GPU cache address packs to a single integer from which its column and
/// row are read back, whenever the column lies within the texture's width.
pub proof fn lemma_gpu_cache_address_round_trip(a: GpuCacheAddress)
    requires
        a.u < MAX_VERTEX_TEXTURE_WIDTH,
    ensures
        a.spec_as_int() as int == a.packed(),
        a.spec_as_int() % MAX_VERTEX_TEXTURE_WIDTH == a.u,
        a.spec_as_int() / MAX_VERTEX_TEXTURE_WIDTH == a.v,
{
}

/// A render-task address below 2^31 packs to the same number.
pub proof fn lemma_render_task_address_value(a: RenderTaskAddress)
    requires
        a.0 <= i32::MAX,
    ensures
        a.spec_as_int() as int == a.0 as int,
{
}

} // verus!
