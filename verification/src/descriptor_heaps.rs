//! Descriptor heaps: where each descriptor of a heap lies.
//!
//! A heap is an array of descriptors of one fixed size. The driver tells
//! where the array starts, once in the CPU's address space and, for heaps
//! that shaders can see, once in the GPU's, and how many bytes one
//! descriptor takes. The handle of descriptor `index` is then
//! `start + increment * index`.

use crate::resources::ResourceDesc;
use vstd::prelude::*;

verus! {

pub const D3D12_DESCRIPTOR_HEAP_TYPE_CBV_SRV_UAV: i32 = 0;

pub const D3D12_DESCRIPTOR_HEAP_TYPE_RTV: i32 = 2;

pub const D3D12_DESCRIPTOR_HEAP_TYPE_DSV: i32 = 3;

pub const D3D12_DESCRIPTOR_HEAP_FLAG_NONE: i32 = 0;

pub const D3D12_DESCRIPTOR_HEAP_FLAG_SHADER_VISIBLE: i32 = 1;

pub const D3D12_DSV_DIMENSION_TEXTURE2D: i32 = 3;

pub const D3D12_DSV_FLAG_NONE: i32 = 0;

pub const D3D12_SRV_DIMENSION_TEXTURE2D: i32 = 4;

pub const D3D12_DEFAULT_SHADER_4_COMPONENT_MAPPING: u32 = 5768;

/// The address of a descriptor as the CPU sees it.
#[derive(Clone, Copy, Debug, PartialEq, Eq, Structural)]
pub struct CpuDescriptorHandle {
    pub ptr: usize,
}

/// The address of a descriptor as the GPU sees it.
#[derive(Clone, Copy, Debug, PartialEq, Eq, Structural)]
pub struct GpuDescriptorHandle {
    pub ptr: u64,
}

/// Both handles of one descriptor.
#[derive(Clone, Copy, Debug, PartialEq, Eq, Structural)]
pub struct DescriptorHandles {
    pub cpu: CpuDescriptorHandle,
    pub gpu: GpuDescriptorHandle,
}

/// What the driver is asked for when a heap is created.
#[derive(Clone, Copy, Debug, PartialEq, Eq, Structural)]
pub struct DescriptorHeapDesc {
    pub heap_type: i32,
    pub num_descriptors: u32,
    pub flags: i32,
    pub node_mask: u32,
}

impl DescriptorHeapDesc {
    /// A heap of `num_descriptors` descriptors on the first adapter node.
    /// The driver counts descriptors in 32 bits: a larger count is cut
    /// down to its low 32 bits.
    pub fn new(heap_type: i32, num_descriptors: usize, flags: i32) -> (desc: Self)
        ensures
            desc == (DescriptorHeapDesc {
                heap_type,
                num_descriptors: num_descriptors as u32,
                flags,
                node_mask: 0,
            }),
    {
        DescriptorHeapDesc {
            heap_type,
            num_descriptors: #[verifier::truncate]
            (num_descriptors as u32),
            flags,
            node_mask: 0,
        }
    }

    /// Whether shaders see the heap, so that it has a GPU start handle to
    /// ask the driver for. Only the flag alone counts.
    pub fn shader_visible(&self) -> (visible: bool)
        ensures
            visible == (self.flags == D3D12_DESCRIPTOR_HEAP_FLAG_SHADER_VISIBLE),
    {
        self.flags == D3D12_DESCRIPTOR_HEAP_FLAG_SHADER_VISIBLE
    }
}

/// The address `increment * index` bytes after `start`.
pub open spec fn descriptor_address(start: int, increment: int, index: int) -> int {
    start + increment * index
}

/// The layout of a descriptor heap and the handles computed from it.
pub trait DescriptorHeap: Sized {
    /// Whether heaps of this kind keep the GPU's start handle. Heaps that
    /// shaders never see do not, and have no GPU handles to give.
    spec fn keeps_gpu_handle() -> bool;

    /// The CPU handle of descriptor 0.
    spec fn cpu_start(&self) -> CpuDescriptorHandle;

    /// The GPU handle of descriptor 0, where `keeps_gpu_handle()`.
    spec fn gpu_start(&self) -> GpuDescriptorHandle;

    /// The size of one descriptor in bytes.
    spec fn stride(&self) -> usize;

    /// A heap laid out from the given start handles and descriptor size.
    /// A kind of heap that keeps no GPU handle takes only the null one.
    fn from_fields(
        start_cpu_handle: CpuDescriptorHandle,
        start_gpu_handle: GpuDescriptorHandle,
        increment: usize,
    ) -> (heap: Self)
        requires
            Self::keeps_gpu_handle() || start_gpu_handle.ptr == 0,
        ensures
            heap.cpu_start() == start_cpu_handle,
            heap.stride() == increment,
            Self::keeps_gpu_handle() ==> heap.gpu_start() == start_gpu_handle,
    ;

    /// A heap laid out from what the driver reports of a heap it made:
    /// the descriptor size, the CPU start handle and, if the heap was
    /// asked for as shader visible, the GPU start handle. Without a GPU
    /// start handle the heap gets the null one.
    fn from_descriptor_heap(
        increment: u32,
        start_cpu_handle: CpuDescriptorHandle,
        start_gpu_handle: Option<GpuDescriptorHandle>,
    ) -> (heap: Self)
        requires
            Self::keeps_gpu_handle() || start_gpu_handle == None::<GpuDescriptorHandle>
                || start_gpu_handle == Some(GpuDescriptorHandle { ptr: 0 }),
        ensures
            heap.cpu_start() == start_cpu_handle,
            heap.stride() == increment,
            Self::keeps_gpu_handle() ==> heap.gpu_start() == match start_gpu_handle {
                Some(handle) => handle,
                None => GpuDescriptorHandle { ptr: 0 },
            },
    {
        let start_gpu_handle = match start_gpu_handle {
            Some(handle) => handle,
            None => GpuDescriptorHandle { ptr: 0 },
        };
        Self::from_fields(start_cpu_handle, start_gpu_handle, increment as usize)
    }

    fn start_cpu_handle(&self) -> (handle: CpuDescriptorHandle)
        ensures
            handle == self.cpu_start(),
    ;

    /// The GPU handle of descriptor 0. A heap that keeps none has none to
    /// give: for such a heap this is never to be called.
    fn start_gpu_handle(&self) -> (handle: GpuDescriptorHandle)
        requires
            Self::keeps_gpu_handle(),
        ensures
            handle == self.gpu_start(),
    ;

    fn increment(&self) -> (increment: usize)
        ensures
            increment == self.stride(),
    ;

    /// Whether descriptor `index` has a CPU handle: whether its address
    /// is one that the CPU can have.
    fn has_cpu_descriptor_handle(&self, index: usize) -> (has: bool)
        ensures
            has == (descriptor_address(
                self.cpu_start().ptr as int,
                self.stride() as int,
                index as int,
            ) <= usize::MAX),
    {
        let increment = self.increment();
        let start = self.start_cpu_handle();
        assert(0 <= increment * index) by (nonlinear_arith);
        match increment.checked_mul(index) {
            Some(offset) => start.ptr.checked_add(offset).is_some(),
            None => false,
        }
    }

    /// Whether descriptor `index` has a GPU handle: whether its offset
    /// from the start of the heap can be computed and its address is one
    /// that the GPU can have.
    fn has_gpu_descriptor_handle(&self, index: usize) -> (has: bool)
        requires
            Self::keeps_gpu_handle(),
        ensures
            has == (self.stride() * index <= usize::MAX && descriptor_address(
                self.gpu_start().ptr as int,
                self.stride() as int,
                index as int,
            ) <= u64::MAX),
    {
        let increment = self.increment();
        let start = self.start_gpu_handle();
        match increment.checked_mul(index) {
            Some(offset) => start.ptr.checked_add(offset as u64).is_some(),
            None => false,
        }
    }

    /// The CPU handle of descriptor `index`.
    fn get_cpu_descriptor_handle(&self, index: usize) -> (handle: CpuDescriptorHandle)
        requires
            descriptor_address(
                self.cpu_start().ptr as int,
                self.stride() as int,
                index as int,
            ) <= usize::MAX,
        ensures
            handle.ptr == descriptor_address(
                self.cpu_start().ptr as int,
                self.stride() as int,
                index as int,
            ),
    {
        let increment = self.increment();
        let start = self.start_cpu_handle();
        assert(0 <= increment * index) by (nonlinear_arith);
        CpuDescriptorHandle { ptr: start.ptr + increment * index }
    }

    /// The GPU handle of descriptor `index`.
    fn get_gpu_descriptor_handle(&self, index: usize) -> (handle: GpuDescriptorHandle)
        requires
            Self::keeps_gpu_handle(),
            self.stride() * index <= usize::MAX,
            descriptor_address(
                self.gpu_start().ptr as int,
                self.stride() as int,
                index as int,
            ) <= u64::MAX,
        ensures
            handle.ptr == descriptor_address(
                self.gpu_start().ptr as int,
                self.stride() as int,
                index as int,
            ),
    {
        let increment = self.increment();
        let start = self.start_gpu_handle();
        GpuDescriptorHandle { ptr: start.ptr + (increment * index) as u64 }
    }
}

/// The CPU address of descriptor `index` of `heap`.
pub open spec fn cpu_address<H: DescriptorHeap>(heap: &H, index: int) -> int {
    descriptor_address(heap.cpu_start().ptr as int, heap.stride() as int, index)
}

/// The GPU address of descriptor `index` of `heap`.
pub open spec fn gpu_address<H: DescriptorHeap>(heap: &H, index: int) -> int {
    descriptor_address(heap.gpu_start().ptr as int, heap.stride() as int, index)
}

/// A heap of render target views. Shaders never see it.
#[derive(Clone, Copy, Debug, PartialEq, Eq, Structural)]
pub struct RtvDescriptorHeap {
    pub start_cpu_handle: CpuDescriptorHandle,
    pub increment: usize,
}

impl DescriptorHeap for RtvDescriptorHeap {
    open spec fn keeps_gpu_handle() -> bool {
        false
    }

    open spec fn cpu_start(&self) -> CpuDescriptorHandle {
        self.start_cpu_handle
    }

    open spec fn gpu_start(&self) -> GpuDescriptorHandle {
        GpuDescriptorHandle { ptr: 0 }
    }

    open spec fn stride(&self) -> usize {
        self.increment
    }

    fn from_fields(
        start_cpu_handle: CpuDescriptorHandle,
        start_gpu_handle: GpuDescriptorHandle,
        increment: usize,
    ) -> (heap: Self) {
        RtvDescriptorHeap { start_cpu_handle, increment }
    }

    fn start_cpu_handle(&self) -> (handle: CpuDescriptorHandle) {
        self.start_cpu_handle
    }

    /// A heap of render target views has no GPU handle: never to be
    /// called.
    fn start_gpu_handle(&self) -> (handle: GpuDescriptorHandle) {
        vstd::pervasive::unreached()
    }

    fn increment(&self) -> (increment: usize) {
        self.increment
    }
}

impl RtvDescriptorHeap {
    /// What to ask the driver for: a heap of `num_descriptors` render
    /// target views that shaders do not see.
    pub fn new(num_descriptors: usize) -> (desc: DescriptorHeapDesc)
        ensures
            desc == (DescriptorHeapDesc {
                heap_type: D3D12_DESCRIPTOR_HEAP_TYPE_RTV,
                num_descriptors: num_descriptors as u32,
                flags: D3D12_DESCRIPTOR_HEAP_FLAG_NONE,
                node_mask: 0,
            }),
    {
        DescriptorHeapDesc::new(
            D3D12_DESCRIPTOR_HEAP_TYPE_RTV,
            num_descriptors,
            D3D12_DESCRIPTOR_HEAP_FLAG_NONE,
        )
    }
}

/// A heap of depth stencil views. Shaders never see it.
#[derive(Clone, Copy, Debug, PartialEq, Eq, Structural)]
pub struct DsvDescriptorHeap {
    pub start_cpu_handle: CpuDescriptorHandle,
    pub increment: usize,
}

impl DescriptorHeap for DsvDescriptorHeap {
    open spec fn keeps_gpu_handle() -> bool {
        false
    }

    open spec fn cpu_start(&self) -> CpuDescriptorHandle {
        self.start_cpu_handle
    }

    open spec fn gpu_start(&self) -> GpuDescriptorHandle {
        GpuDescriptorHandle { ptr: 0 }
    }

    open spec fn stride(&self) -> usize {
        self.increment
    }

    fn from_fields(
        start_cpu_handle: CpuDescriptorHandle,
        start_gpu_handle: GpuDescriptorHandle,
        increment: usize,
    ) -> (heap: Self) {
        DsvDescriptorHeap { start_cpu_handle, increment }
    }

    fn start_cpu_handle(&self) -> (handle: CpuDescriptorHandle) {
        self.start_cpu_handle
    }

    /// A heap of depth stencil views has no GPU handle: never to be
    /// called.
    fn start_gpu_handle(&self) -> (handle: GpuDescriptorHandle) {
        vstd::pervasive::unreached()
    }

    fn increment(&self) -> (increment: usize) {
        self.increment
    }
}

impl DsvDescriptorHeap {
    /// What to ask the driver for: a heap of `num_descriptors` depth
    /// stencil views that shaders do not see.
    pub fn new(num_descriptors: usize) -> (desc: DescriptorHeapDesc)
        ensures
            desc == (DescriptorHeapDesc {
                heap_type: D3D12_DESCRIPTOR_HEAP_TYPE_DSV,
                num_descriptors: num_descriptors as u32,
                flags: D3D12_DESCRIPTOR_HEAP_FLAG_NONE,
                node_mask: 0,
            }),
    {
        DescriptorHeapDesc::new(
            D3D12_DESCRIPTOR_HEAP_TYPE_DSV,
            num_descriptors,
            D3D12_DESCRIPTOR_HEAP_FLAG_NONE,
        )
    }

    /// The heap that starts at descriptor `start_index` of this one.
    pub fn slice(&self, start_index: usize) -> (rest: Self)
        requires
            cpu_address(self, start_index as int) <= usize::MAX,
        ensures
            rest.start_cpu_handle.ptr == cpu_address(self, start_index as int),
            rest.increment == self.increment,
    {
        Self::from_fields(
            self.get_cpu_descriptor_handle(start_index),
            GpuDescriptorHandle { ptr: 0 },
            self.increment(),
        )
    }
}

/// A heap of constant buffer, shader resource and unordered access views.
/// Where shaders do not see the heap, its GPU start handle is null.
#[derive(Clone, Copy, Debug, PartialEq, Eq, Structural)]
pub struct CbvSrvUavDescriptorHeap {
    pub start_cpu_handle: CpuDescriptorHandle,
    pub start_gpu_handle: GpuDescriptorHandle,
    pub increment: usize,
}

impl DescriptorHeap for CbvSrvUavDescriptorHeap {
    open spec fn keeps_gpu_handle() -> bool {
        true
    }

    open spec fn cpu_start(&self) -> CpuDescriptorHandle {
        self.start_cpu_handle
    }

    open spec fn gpu_start(&self) -> GpuDescriptorHandle {
        self.start_gpu_handle
    }

    open spec fn stride(&self) -> usize {
        self.increment
    }

    fn from_fields(
        start_cpu_handle: CpuDescriptorHandle,
        start_gpu_handle: GpuDescriptorHandle,
        increment: usize,
    ) -> (heap: Self) {
        CbvSrvUavDescriptorHeap { start_cpu_handle, start_gpu_handle, increment }
    }

    fn start_cpu_handle(&self) -> (handle: CpuDescriptorHandle) {
        self.start_cpu_handle
    }

    fn start_gpu_handle(&self) -> (handle: GpuDescriptorHandle) {
        self.start_gpu_handle
    }

    fn increment(&self) -> (increment: usize) {
        self.increment
    }
}

impl CbvSrvUavDescriptorHeap {
    /// What to ask the driver for: a heap of `num_descriptors` views with
    /// the given flags.
    pub fn new(num_descriptors: usize, flags: i32) -> (desc: DescriptorHeapDesc)
        ensures
            desc == (DescriptorHeapDesc {
                heap_type: D3D12_DESCRIPTOR_HEAP_TYPE_CBV_SRV_UAV,
                num_descriptors: num_descriptors as u32,
                flags,
                node_mask: 0,
            }),
    {
        DescriptorHeapDesc::new(D3D12_DESCRIPTOR_HEAP_TYPE_CBV_SRV_UAV, num_descriptors, flags)
    }

    /// Whether both handles of descriptor `index` can be computed.
    pub open spec fn in_reach(&self, index: int) -> bool {
        &&& self.increment * index <= usize::MAX
        &&& cpu_address(self, index) <= usize::MAX
        &&& gpu_address(self, index) <= u64::MAX
    }

    /// Whether both handles of descriptor `index` can be computed.
    pub fn reaches(&self, index: usize) -> (reaches: bool)
        ensures
            reaches == self.in_reach(index as int),
    {
        self.has_cpu_descriptor_handle(index) && self.has_gpu_descriptor_handle(index)
    }

    /// The heap that starts at descriptor `start_index` of this one.
    pub fn slice(&self, start_index: usize) -> (rest: Self)
        requires
            self.in_reach(start_index as int),
        ensures
            rest.start_cpu_handle.ptr == cpu_address(self, start_index as int),
            rest.start_gpu_handle.ptr == gpu_address(self, start_index as int),
            rest.increment == self.increment,
    {
        Self::from_fields(
            self.get_cpu_descriptor_handle(start_index),
            self.get_gpu_descriptor_handle(start_index),
            self.increment(),
        )
    }

    /// Both handles of descriptor `index`.
    pub fn get_descriptor_handles(&self, index: usize) -> (handles: DescriptorHandles)
        requires
            self.in_reach(index as int),
        ensures
            handles.cpu.ptr == cpu_address(self, index as int),
            handles.gpu.ptr == gpu_address(self, index as int),
    {
        DescriptorHandles {
            cpu: self.get_cpu_descriptor_handle(index),
            gpu: self.get_gpu_descriptor_handle(index),
        }
    }
}

/// Descriptor `index` of the heap that starts at descriptor `start_index`
/// of a heap is descriptor `start_index + index` of that heap.
pub proof fn lemma_slice_offsets_indices<H: DescriptorHeap>(
    heap: &H,
    rest: &H,
    start_index: int,
    index: int,
)
    requires
        rest.cpu_start().ptr == cpu_address(heap, start_index),
        rest.gpu_start().ptr == gpu_address(heap, start_index),
        rest.stride() == heap.stride(),
    ensures
        cpu_address(rest, index) == cpu_address(heap, start_index + index),
        gpu_address(rest, index) == gpu_address(heap, start_index + index),
{
    let increment = heap.stride() as int;
    assert(increment * (start_index + index) == increment * start_index + increment * index)
        by (nonlinear_arith);
}

/// Descriptors do not overlap: a descriptor with a higher index starts
/// where the one before it ends, or later.
pub proof fn lemma_descriptors_apart<H: DescriptorHeap>(heap: &H, lower: int, higher: int)
    requires
        lower < higher,
    ensures
        cpu_address(heap, lower) + heap.stride() <= cpu_address(heap, higher),
        gpu_address(heap, lower) + heap.stride() <= gpu_address(heap, higher),
{
    let increment = heap.stride() as int;
    assert(increment * (lower + 1) <= increment * higher) by (nonlinear_arith)
        requires
            0 <= increment,
            lower + 1 <= higher,
    ;
    assert(increment * (lower + 1) == increment * lower + increment) by (nonlinear_arith);
}

/// How a texture is seen through a depth stencil view.
#[derive(Clone, Copy, Debug, PartialEq, Eq, Structural)]
pub struct DepthStencilViewDesc {
    pub format: u32,
    pub view_dimension: i32,
    pub flags: i32,
    pub mip_slice: u32,
}

impl DepthStencilViewDesc {
    /// A view of mip level `mip_slice` of a two-dimensional texture.
    pub fn tex2d(format: u32, mip_slice: u32) -> (desc: Self)
        ensures
            desc == (DepthStencilViewDesc {
                format,
                view_dimension: D3D12_DSV_DIMENSION_TEXTURE2D,
                flags: D3D12_DSV_FLAG_NONE,
                mip_slice,
            }),
    {
        DepthStencilViewDesc {
            format,
            view_dimension: D3D12_DSV_DIMENSION_TEXTURE2D,
            flags: D3D12_DSV_FLAG_NONE,
            mip_slice,
        }
    }
}

/// The mip levels and plane of a two-dimensional texture that a shader
/// resource view shows. The lowest level of detail that may be sampled is
/// a 32-bit float: it is held as its bits.
#[derive(Clone, Copy, Debug, PartialEq, Eq, Structural)]
pub struct Tex2dSrv {
    pub most_detailed_mip: u32,
    pub mip_levels: u32,
    pub plane_slice: u32,
    pub resource_min_lod_clamp_bits: u32,
}

/// How a resource is seen through a shader resource view.
#[derive(Clone, Copy, Debug, PartialEq, Eq, Structural)]
pub struct ShaderResourceViewDesc {
    pub format: u32,
    pub view_dimension: i32,
    pub shader_4_component_mapping: u32,
    pub texture2d: Tex2dSrv,
}

impl ShaderResourceViewDesc {
    /// A view of a two-dimensional texture with its four components in
    /// their own places.
    pub fn texture2d(format: u32, srv: Tex2dSrv) -> (desc: Self)
        ensures
            desc == (ShaderResourceViewDesc {
                format,
                view_dimension: D3D12_SRV_DIMENSION_TEXTURE2D,
                shader_4_component_mapping: D3D12_DEFAULT_SHADER_4_COMPONENT_MAPPING,
                texture2d: srv,
            }),
    {
        ShaderResourceViewDesc {
            format,
            view_dimension: D3D12_SRV_DIMENSION_TEXTURE2D,
            shader_4_component_mapping: D3D12_DEFAULT_SHADER_4_COMPONENT_MAPPING,
            texture2d: srv,
        }
    }
}

/// The part of a buffer that a constant buffer view shows.
#[derive(Clone, Copy, Debug, PartialEq, Eq, Structural)]
pub struct ConstantBufferViewDesc {
    pub buffer_location: u64,
    pub size_in_bytes: u32,
}

impl ConstantBufferViewDesc {
    /// A view of the whole buffer described by `desc`, which the GPU has
    /// at `gpu_virtual_address`. A view counts its bytes in 32 bits: of a
    /// longer buffer's width the low 32 bits are taken.
    pub fn entire_resource(gpu_virtual_address: u64, desc: &ResourceDesc) -> (view: Self)
        ensures
            view == (ConstantBufferViewDesc {
                buffer_location: gpu_virtual_address,
                size_in_bytes: desc.width as u32,
            }),
    {
        ConstantBufferViewDesc {
            buffer_location: gpu_virtual_address,
            size_in_bytes: #[verifier::truncate]
            (desc.width as u32),
        }
    }
}

} // verus!
