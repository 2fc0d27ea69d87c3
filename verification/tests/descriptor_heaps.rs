use d3dx12::descriptor_heaps::CbvSrvUavDescriptorHeap;
use d3dx12::descriptor_heaps::ConstantBufferViewDesc;
use d3dx12::descriptor_heaps::CpuDescriptorHandle;
use d3dx12::descriptor_heaps::DepthStencilViewDesc;
use d3dx12::descriptor_heaps::DescriptorHandles;
use d3dx12::descriptor_heaps::DescriptorHeap;
use d3dx12::descriptor_heaps::DescriptorHeapDesc;
use d3dx12::descriptor_heaps::DsvDescriptorHeap;
use d3dx12::descriptor_heaps::GpuDescriptorHandle;
use d3dx12::descriptor_heaps::RtvDescriptorHeap;
use d3dx12::descriptor_heaps::ShaderResourceViewDesc;
use d3dx12::descriptor_heaps::Tex2dSrv;
use d3dx12::descriptor_heaps::D3D12_DEFAULT_SHADER_4_COMPONENT_MAPPING;
use d3dx12::descriptor_heaps::D3D12_DESCRIPTOR_HEAP_FLAG_NONE;
use d3dx12::descriptor_heaps::D3D12_DESCRIPTOR_HEAP_FLAG_SHADER_VISIBLE;
use d3dx12::descriptor_heaps::D3D12_DESCRIPTOR_HEAP_TYPE_CBV_SRV_UAV;
use d3dx12::descriptor_heaps::D3D12_DESCRIPTOR_HEAP_TYPE_DSV;
use d3dx12::descriptor_heaps::D3D12_DESCRIPTOR_HEAP_TYPE_RTV;
use d3dx12::descriptor_heaps::D3D12_DSV_DIMENSION_TEXTURE2D;
use d3dx12::descriptor_heaps::D3D12_DSV_FLAG_NONE;
use d3dx12::descriptor_heaps::D3D12_SRV_DIMENSION_TEXTURE2D;
use d3dx12::resources::ResourceDesc;
use d3dx12::resources::DXGI_FORMAT_D32_FLOAT;
use d3dx12::resources::DXGI_FORMAT_R8G8B8A8_UNORM;
use windows::Win32::Graphics::Direct3D12;

fn shader_heap() -> CbvSrvUavDescriptorHeap {
    CbvSrvUavDescriptorHeap::from_fields(
        CpuDescriptorHandle { ptr: 0x1000 },
        GpuDescriptorHandle { ptr: 0x9_0000_0000 },
        32,
    )
}

#[test]
fn heap_constants_are_those_of_the_api() {
    assert_eq!(
        D3D12_DESCRIPTOR_HEAP_TYPE_CBV_SRV_UAV,
        Direct3D12::D3D12_DESCRIPTOR_HEAP_TYPE_CBV_SRV_UAV.0
    );
    assert_eq!(D3D12_DESCRIPTOR_HEAP_TYPE_RTV, Direct3D12::D3D12_DESCRIPTOR_HEAP_TYPE_RTV.0);
    assert_eq!(D3D12_DESCRIPTOR_HEAP_TYPE_DSV, Direct3D12::D3D12_DESCRIPTOR_HEAP_TYPE_DSV.0);
    assert_eq!(D3D12_DESCRIPTOR_HEAP_FLAG_NONE, Direct3D12::D3D12_DESCRIPTOR_HEAP_FLAG_NONE.0);
    assert_eq!(
        D3D12_DESCRIPTOR_HEAP_FLAG_SHADER_VISIBLE,
        Direct3D12::D3D12_DESCRIPTOR_HEAP_FLAG_SHADER_VISIBLE.0
    );
    assert_eq!(D3D12_DSV_DIMENSION_TEXTURE2D, Direct3D12::D3D12_DSV_DIMENSION_TEXTURE2D.0);
    assert_eq!(D3D12_DSV_FLAG_NONE, Direct3D12::D3D12_DSV_FLAG_NONE.0);
    assert_eq!(D3D12_SRV_DIMENSION_TEXTURE2D, Direct3D12::D3D12_SRV_DIMENSION_TEXTURE2D.0);
    assert_eq!(
        D3D12_DEFAULT_SHADER_4_COMPONENT_MAPPING,
        Direct3D12::D3D12_DEFAULT_SHADER_4_COMPONENT_MAPPING
    );
}

#[test]
fn heap_desc_keeps_type_count_and_flags() {
    let desc = DescriptorHeapDesc::new(D3D12_DESCRIPTOR_HEAP_TYPE_DSV, 7, 1);
    assert_eq!(
        desc,
        DescriptorHeapDesc {
            heap_type: 3,
            num_descriptors: 7,
            flags: 1,
            node_mask: 0
        }
    );
}

#[test]
fn heap_desc_cuts_the_count_to_32_bits() {
    if usize::BITS > 32 {
        let count = (1u64 << 32) as usize + 5;
        let desc = DescriptorHeapDesc::new(D3D12_DESCRIPTOR_HEAP_TYPE_RTV, count, 0);
        assert_eq!(desc.num_descriptors, 5);
    }
    let desc = DescriptorHeapDesc::new(D3D12_DESCRIPTOR_HEAP_TYPE_RTV, u32::MAX as usize, 0);
    assert_eq!(desc.num_descriptors, u32::MAX);
}

#[test]
fn only_the_flag_alone_makes_a_heap_shader_visible() {
    let visible = DescriptorHeapDesc::new(0, 1, D3D12_DESCRIPTOR_HEAP_FLAG_SHADER_VISIBLE);
    assert!(visible.shader_visible());
    let hidden = DescriptorHeapDesc::new(0, 1, D3D12_DESCRIPTOR_HEAP_FLAG_NONE);
    assert!(!hidden.shader_visible());
    let mixed = DescriptorHeapDesc::new(0, 1, 3);
    assert!(!mixed.shader_visible());
}

#[test]
fn each_kind_of_heap_asks_for_its_own_type() {
    assert_eq!(
        RtvDescriptorHeap::new(2),
        DescriptorHeapDesc {
            heap_type: D3D12_DESCRIPTOR_HEAP_TYPE_RTV,
            num_descriptors: 2,
            flags: D3D12_DESCRIPTOR_HEAP_FLAG_NONE,
            node_mask: 0
        }
    );
    assert_eq!(
        DsvDescriptorHeap::new(3),
        DescriptorHeapDesc {
            heap_type: D3D12_DESCRIPTOR_HEAP_TYPE_DSV,
            num_descriptors: 3,
            flags: D3D12_DESCRIPTOR_HEAP_FLAG_NONE,
            node_mask: 0
        }
    );
    assert_eq!(
        CbvSrvUavDescriptorHeap::new(9, D3D12_DESCRIPTOR_HEAP_FLAG_SHADER_VISIBLE),
        DescriptorHeapDesc {
            heap_type: D3D12_DESCRIPTOR_HEAP_TYPE_CBV_SRV_UAV,
            num_descriptors: 9,
            flags: D3D12_DESCRIPTOR_HEAP_FLAG_SHADER_VISIBLE,
            node_mask: 0
        }
    );
}

#[test]
fn from_fields_keeps_what_it_is_given() {
    let heap = shader_heap();
    assert_eq!(heap.start_cpu_handle(), CpuDescriptorHandle { ptr: 0x1000 });
    assert_eq!(
        heap.start_gpu_handle(),
        GpuDescriptorHandle {
            ptr: 0x9_0000_0000
        }
    );
    assert_eq!(heap.increment(), 32);

    let rtv = RtvDescriptorHeap::from_fields(
        CpuDescriptorHandle { ptr: 64 },
        GpuDescriptorHandle { ptr: 0 },
        8,
    );
    assert_eq!(rtv.start_cpu_handle(), CpuDescriptorHandle { ptr: 64 });
    assert_eq!(rtv.increment(), 8);

    let dsv = DsvDescriptorHeap::from_fields(
        CpuDescriptorHandle { ptr: 128 },
        GpuDescriptorHandle { ptr: 0 },
        16,
    );
    assert_eq!(dsv.start_cpu_handle(), CpuDescriptorHandle { ptr: 128 });
    assert_eq!(dsv.increment(), 16);
}

#[test]
fn from_descriptor_heap_takes_the_null_handle_for_a_missing_one() {
    let hidden = CbvSrvUavDescriptorHeap::from_descriptor_heap(
        24,
        CpuDescriptorHandle { ptr: 500 },
        None,
    );
    assert_eq!(
        hidden,
        CbvSrvUavDescriptorHeap {
            start_cpu_handle: CpuDescriptorHandle { ptr: 500 },
            start_gpu_handle: GpuDescriptorHandle { ptr: 0 },
            increment: 24
        }
    );
    let visible = CbvSrvUavDescriptorHeap::from_descriptor_heap(
        24,
        CpuDescriptorHandle { ptr: 500 },
        Some(GpuDescriptorHandle { ptr: 77 }),
    );
    assert_eq!(visible.start_gpu_handle(), GpuDescriptorHandle { ptr: 77 });
    let rtv = RtvDescriptorHeap::from_descriptor_heap(8, CpuDescriptorHandle { ptr: 40 }, None);
    assert_eq!(
        rtv,
        RtvDescriptorHeap {
            start_cpu_handle: CpuDescriptorHandle { ptr: 40 },
            increment: 8
        }
    );
}

#[test]
fn handles_lie_one_increment_apart() {
    let heap = shader_heap();
    assert_eq!(heap.get_cpu_descriptor_handle(0).ptr, 0x1000);
    assert_eq!(heap.get_cpu_descriptor_handle(1).ptr, 0x1020);
    assert_eq!(heap.get_cpu_descriptor_handle(5).ptr, 0x1000 + 160);
    assert_eq!(heap.get_gpu_descriptor_handle(0).ptr, 0x9_0000_0000);
    assert_eq!(heap.get_gpu_descriptor_handle(3).ptr, 0x9_0000_0060);

    let rtv = RtvDescriptorHeap {
        start_cpu_handle: CpuDescriptorHandle { ptr: 10 },
        increment: 7,
    };
    assert_eq!(rtv.get_cpu_descriptor_handle(4).ptr, 38);
}

#[test]
fn the_last_address_can_be_reached() {
    let heap = RtvDescriptorHeap {
        start_cpu_handle: CpuDescriptorHandle {
            ptr: usize::MAX - 64,
        },
        increment: 32,
    };
    assert_eq!(heap.get_cpu_descriptor_handle(2).ptr, usize::MAX);
    let still = RtvDescriptorHeap {
        start_cpu_handle: CpuDescriptorHandle { ptr: 9 },
        increment: 0,
    };
    assert_eq!(still.get_cpu_descriptor_handle(usize::MAX).ptr, 9);
}

#[test]
fn both_handles_of_a_descriptor() {
    let heap = shader_heap();
    assert_eq!(
        heap.get_descriptor_handles(2),
        DescriptorHandles {
            cpu: CpuDescriptorHandle { ptr: 0x1040 },
            gpu: GpuDescriptorHandle {
                ptr: 0x9_0000_0040
            }
        }
    );
}

#[test]
fn a_slice_starts_at_the_descriptor_it_is_cut_at() {
    let heap = shader_heap();
    let rest = heap.slice(2);
    assert_eq!(
        rest,
        CbvSrvUavDescriptorHeap {
            start_cpu_handle: CpuDescriptorHandle { ptr: 0x1040 },
            start_gpu_handle: GpuDescriptorHandle {
                ptr: 0x9_0000_0040
            },
            increment: 32
        }
    );
    let dsv = DsvDescriptorHeap {
        start_cpu_handle: CpuDescriptorHandle { ptr: 100 },
        increment: 8,
    };
    assert_eq!(
        dsv.slice(1),
        DsvDescriptorHeap {
            start_cpu_handle: CpuDescriptorHandle { ptr: 108 },
            increment: 8
        }
    );
}

#[test]
fn a_slice_counts_on_from_where_it_starts() {
    let heap = shader_heap();
    for start in 0..5usize {
        let rest = heap.slice(start);
        for index in 0..5usize {
            assert_eq!(
                rest.get_descriptor_handles(index),
                heap.get_descriptor_handles(start + index)
            );
        }
    }
    assert_eq!(heap.slice(1).slice(2), heap.slice(3));
}

#[test]
fn descriptors_do_not_overlap() {
    let heap = shader_heap();
    for lower in 0..6usize {
        for higher in (lower + 1)..7usize {
            let low = heap.get_descriptor_handles(lower);
            let high = heap.get_descriptor_handles(higher);
            assert!(low.cpu.ptr + heap.increment() <= high.cpu.ptr);
            assert!(low.gpu.ptr + heap.increment() as u64 <= high.gpu.ptr);
        }
    }
}

#[test]
fn depth_stencil_view_of_a_2d_texture() {
    let desc = DepthStencilViewDesc::tex2d(DXGI_FORMAT_D32_FLOAT, 3);
    assert_eq!(
        desc,
        DepthStencilViewDesc {
            format: 40,
            view_dimension: 3,
            flags: 0,
            mip_slice: 3
        }
    );
}

#[test]
fn shader_resource_view_of_a_2d_texture() {
    let srv = Tex2dSrv {
        most_detailed_mip: 1,
        mip_levels: 4,
        plane_slice: 0,
        resource_min_lod_clamp_bits: 0.5f32.to_bits(),
    };
    let desc = ShaderResourceViewDesc::texture2d(DXGI_FORMAT_R8G8B8A8_UNORM, srv);
    assert_eq!(
        desc,
        ShaderResourceViewDesc {
            format: 28,
            view_dimension: 4,
            shader_4_component_mapping: 5768,
            texture2d: srv
        }
    );
    assert_eq!(f32::from_bits(desc.texture2d.resource_min_lod_clamp_bits), 0.5);
}

#[test]
fn constant_buffer_view_of_an_entire_resource() {
    let view = ConstantBufferViewDesc::entire_resource(0xABCD_0000, &ResourceDesc::buffer(256));
    assert_eq!(
        view,
        ConstantBufferViewDesc {
            buffer_location: 0xABCD_0000,
            size_in_bytes: 256
        }
    );
    let mut long = ResourceDesc::buffer(0);
    long.width = (1u64 << 32) + 512;
    assert_eq!(ConstantBufferViewDesc::entire_resource(1, &long).size_in_bytes, 512);
}

#[test]
fn a_descriptor_beyond_the_address_space_has_no_handle() {
    let heap = RtvDescriptorHeap {
        start_cpu_handle: CpuDescriptorHandle {
            ptr: usize::MAX - 64,
        },
        increment: 32,
    };
    assert!(heap.has_cpu_descriptor_handle(0));
    assert!(heap.has_cpu_descriptor_handle(2));
    assert!(!heap.has_cpu_descriptor_handle(3));
    assert!(!heap.has_cpu_descriptor_handle(usize::MAX));

    let wide = RtvDescriptorHeap {
        start_cpu_handle: CpuDescriptorHandle { ptr: 0 },
        increment: usize::MAX,
    };
    assert!(wide.has_cpu_descriptor_handle(1));
    assert!(!wide.has_cpu_descriptor_handle(2));

    let still = RtvDescriptorHeap {
        start_cpu_handle: CpuDescriptorHandle { ptr: usize::MAX },
        increment: 0,
    };
    assert!(still.has_cpu_descriptor_handle(usize::MAX));
}

#[test]
fn a_heap_reaches_the_descriptors_with_both_handles() {
    let heap = CbvSrvUavDescriptorHeap {
        start_cpu_handle: CpuDescriptorHandle { ptr: 1000 },
        start_gpu_handle: GpuDescriptorHandle {
            ptr: u64::MAX - 100,
        },
        increment: 50,
    };
    assert!(heap.has_gpu_descriptor_handle(0));
    assert!(heap.has_gpu_descriptor_handle(2));
    assert!(!heap.has_gpu_descriptor_handle(3));
    assert!(heap.has_cpu_descriptor_handle(3));
    assert!(heap.reaches(2));
    assert!(!heap.reaches(3));
    assert_eq!(heap.get_gpu_descriptor_handle(2).ptr, u64::MAX);

    let high = CbvSrvUavDescriptorHeap {
        start_cpu_handle: CpuDescriptorHandle {
            ptr: usize::MAX - 10,
        },
        start_gpu_handle: GpuDescriptorHandle { ptr: 0 },
        increment: 8,
    };
    assert!(high.reaches(1));
    assert!(!high.reaches(2));
    assert!(!high.reaches(usize::MAX));
}
