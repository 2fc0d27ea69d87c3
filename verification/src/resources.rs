//! Descriptions of resources, of the heaps they live in, and of the
//! barriers that move a resource from one state to another.
//!
//! The numbers are those of the Direct3D 12 headers.

use vstd::prelude::*;

verus! {

pub const DXGI_FORMAT_UNKNOWN: u32 = 0;

pub const DXGI_FORMAT_R32G32B32A32_FLOAT: u32 = 2;

pub const DXGI_FORMAT_R32G32B32_FLOAT: u32 = 6;

pub const DXGI_FORMAT_R32G32_FLOAT: u32 = 16;

pub const DXGI_FORMAT_R8G8B8A8_UNORM: u32 = 28;

pub const DXGI_FORMAT_R32_TYPELESS: u32 = 39;

pub const DXGI_FORMAT_D32_FLOAT: u32 = 40;

pub const DXGI_FORMAT_R32_FLOAT: u32 = 41;

pub const D3D12_RESOURCE_DIMENSION_UNKNOWN: i32 = 0;

pub const D3D12_RESOURCE_DIMENSION_BUFFER: i32 = 1;

pub const D3D12_RESOURCE_DIMENSION_TEXTURE2D: i32 = 3;

pub const D3D12_TEXTURE_LAYOUT_UNKNOWN: i32 = 0;

pub const D3D12_TEXTURE_LAYOUT_ROW_MAJOR: i32 = 1;

pub const D3D12_RESOURCE_FLAG_NONE: i32 = 0;

pub const D3D12_RESOURCE_FLAG_ALLOW_DEPTH_STENCIL: i32 = 2;

pub const D3D12_RESOURCE_FLAG_DENY_SHADER_RESOURCE: i32 = 8;

pub const D3D12_HEAP_TYPE_DEFAULT: i32 = 1;

pub const D3D12_HEAP_TYPE_UPLOAD: i32 = 2;

pub const D3D12_CPU_PAGE_PROPERTY_UNKNOWN: i32 = 0;

pub const D3D12_MEMORY_POOL_UNKNOWN: i32 = 0;

pub const D3D12_RESOURCE_STATE_PRESENT: i32 = 0;

pub const D3D12_RESOURCE_STATE_RENDER_TARGET: i32 = 4;

pub const D3D12_RESOURCE_STATE_DEPTH_WRITE: i32 = 16;

pub const D3D12_RESOURCE_STATE_PIXEL_SHADER_RESOURCE: i32 = 128;

pub const D3D12_RESOURCE_STATE_COPY_DEST: i32 = 1024;

pub const D3D12_RESOURCE_STATE_GENERIC_READ: i32 = 2755;

pub const D3D12_RESOURCE_BARRIER_TYPE_TRANSITION: i32 = 0;

pub const D3D12_RESOURCE_BARRIER_FLAG_NONE: i32 = 0;

pub const D3D12_RESOURCE_BARRIER_ALL_SUBRESOURCES: u32 = 0xffff_ffff;

/// Multisampling of a resource: samples per pixel and quality level.
#[derive(Clone, Copy, Debug, PartialEq, Eq, Structural)]
pub struct SampleDesc {
    pub count: u32,
    pub quality: u32,
}

/// What a resource is: a buffer or a texture, and of what size and format.
#[derive(Clone, Copy, Debug, PartialEq, Eq, Structural)]
pub struct ResourceDesc {
    pub dimension: i32,
    pub alignment: u64,
    pub width: u64,
    pub height: u32,
    pub depth_or_array_size: u16,
    pub mip_levels: u16,
    pub format: u32,
    pub sample_desc: SampleDesc,
    pub layout: i32,
    pub flags: i32,
}

impl ResourceDesc {
    /// The description from which the others start: one texel, one mip
    /// level, one sample, kind and format unknown.
    pub open spec fn spec_default() -> ResourceDesc {
        ResourceDesc {
            dimension: D3D12_RESOURCE_DIMENSION_UNKNOWN,
            alignment: 0,
            width: 1,
            height: 1,
            depth_or_array_size: 1,
            mip_levels: 1,
            format: DXGI_FORMAT_UNKNOWN,
            sample_desc: SampleDesc { count: 1, quality: 0 },
            layout: D3D12_TEXTURE_LAYOUT_UNKNOWN,
            flags: D3D12_RESOURCE_FLAG_NONE,
        }
    }

    /// A buffer of `size` bytes.
    pub open spec fn spec_buffer(size: usize) -> ResourceDesc {
        ResourceDesc {
            dimension: D3D12_RESOURCE_DIMENSION_BUFFER,
            width: size as u64,
            layout: D3D12_TEXTURE_LAYOUT_ROW_MAJOR,
            ..Self::spec_default()
        }
    }

    /// A two-dimensional texture of `width` by `height` texels.
    pub open spec fn spec_tex2d(format: u32, width: u64, height: u32) -> ResourceDesc {
        ResourceDesc {
            format,
            dimension: D3D12_RESOURCE_DIMENSION_TEXTURE2D,
            width,
            height,
            ..Self::spec_default()
        }
    }

    pub fn default() -> (desc: Self)
        ensures
            desc == Self::spec_default(),
    {
        ResourceDesc {
            dimension: D3D12_RESOURCE_DIMENSION_UNKNOWN,
            alignment: 0,
            width: 1,
            height: 1,
            depth_or_array_size: 1,
            mip_levels: 1,
            format: DXGI_FORMAT_UNKNOWN,
            sample_desc: SampleDesc { count: 1, quality: 0 },
            layout: D3D12_TEXTURE_LAYOUT_UNKNOWN,
            flags: D3D12_RESOURCE_FLAG_NONE,
        }
    }

    pub fn buffer(size: usize) -> (desc: Self)
        ensures
            desc == Self::spec_buffer(size),
    {
        ResourceDesc {
            dimension: D3D12_RESOURCE_DIMENSION_BUFFER,
            width: size as u64,
            layout: D3D12_TEXTURE_LAYOUT_ROW_MAJOR,
            ..Self::default()
        }
    }

    pub fn tex2d(format: u32, width: u64, height: u32) -> (desc: Self)
        ensures
            desc == Self::spec_tex2d(format, width, height),
    {
        ResourceDesc {
            format,
            dimension: D3D12_RESOURCE_DIMENSION_TEXTURE2D,
            width,
            height,
            ..Self::default()
        }
    }
}

/// Where the memory of a resource is to come from.
#[derive(Clone, Copy, Debug, PartialEq, Eq, Structural)]
pub struct HeapProperties {
    pub heap_type: i32,
    pub cpu_page_property: i32,
    pub memory_pool_preference: i32,
    pub creation_node_mask: u32,
    pub visible_node_mask: u32,
}

impl HeapProperties {
    /// A heap of the given type on the first adapter node, with page
    /// property and memory pool left to the driver.
    pub open spec fn spec_standard(heap_type: i32) -> HeapProperties {
        HeapProperties {
            heap_type,
            cpu_page_property: D3D12_CPU_PAGE_PROPERTY_UNKNOWN,
            memory_pool_preference: D3D12_MEMORY_POOL_UNKNOWN,
            creation_node_mask: 1,
            visible_node_mask: 1,
        }
    }

    pub fn default() -> (properties: Self)
        ensures
            properties == Self::spec_standard(D3D12_HEAP_TYPE_DEFAULT),
    {
        HeapProperties {
            heap_type: D3D12_HEAP_TYPE_DEFAULT,
            cpu_page_property: D3D12_CPU_PAGE_PROPERTY_UNKNOWN,
            memory_pool_preference: D3D12_MEMORY_POOL_UNKNOWN,
            creation_node_mask: 1,
            visible_node_mask: 1,
        }
    }

    pub fn standard(heap_type: i32) -> (properties: Self)
        ensures
            properties == Self::spec_standard(heap_type),
    {
        HeapProperties { heap_type, ..Self::default() }
    }
}

/// The change of one resource from one state to another.
pub struct ResourceTransitionBarrier<R> {
    pub resource: R,
    pub subresource: u32,
    pub state_before: i32,
    pub state_after: i32,
}

/// A barrier as a command list takes it.
pub struct ResourceBarrier<R> {
    pub barrier_type: i32,
    pub flags: i32,
    pub transition: ResourceTransitionBarrier<R>,
}

/// The barrier that takes all subresources of `resource` from
/// `state_before` to `state_after`.
pub fn transition_barrier<R>(resource: R, state_before: i32, state_after: i32) -> (barrier:
    ResourceBarrier<R>)
    ensures
        barrier == (ResourceBarrier {
            barrier_type: D3D12_RESOURCE_BARRIER_TYPE_TRANSITION,
            flags: D3D12_RESOURCE_BARRIER_FLAG_NONE,
            transition: ResourceTransitionBarrier {
                resource,
                subresource: D3D12_RESOURCE_BARRIER_ALL_SUBRESOURCES,
                state_before,
                state_after,
            },
        }),
{
    ResourceBarrier {
        barrier_type: D3D12_RESOURCE_BARRIER_TYPE_TRANSITION,
        flags: D3D12_RESOURCE_BARRIER_FLAG_NONE,
        transition: ResourceTransitionBarrier {
            resource,
            subresource: D3D12_RESOURCE_BARRIER_ALL_SUBRESOURCES,
            state_before,
            state_after,
        },
    }
}

} // verus!
