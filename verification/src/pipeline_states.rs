//! The fixed parts of a graphics pipeline state: how triangles are
//! rasterized and how colours are blended into the render targets.

use vstd::prelude::*;

verus! {

pub const D3D12_FILL_MODE_SOLID: i32 = 3;

pub const D3D12_CULL_MODE_BACK: i32 = 3;

pub const D3D12_DEFAULT_DEPTH_BIAS: i32 = 0;

/// The bits of `0.0`, the default clamp of the depth bias.
pub const D3D12_DEFAULT_DEPTH_BIAS_CLAMP_BITS: u32 = 0;

/// The bits of `0.0`, the default depth bias per unit of slope.
pub const D3D12_DEFAULT_SLOPE_SCALED_DEPTH_BIAS_BITS: u32 = 0;

pub const D3D12_CONSERVATIVE_RASTERIZATION_MODE_OFF: i32 = 0;

pub const D3D12_BLEND_ZERO: i32 = 1;

pub const D3D12_BLEND_ONE: i32 = 2;

pub const D3D12_BLEND_OP_ADD: i32 = 1;

pub const D3D12_LOGIC_OP_NOOP: i32 = 4;

pub const D3D12_COLOR_WRITE_ENABLE_ALL: u8 = 15;

pub const D3DCOMPILE_DEBUG: u32 = 1;

pub const D3DCOMPILE_SKIP_OPTIMIZATION: u32 = 4;

/// The flags to compile shaders with: in a debug build with debug
/// information and without optimization, otherwise none.
pub fn shader_compile_flags(debug: bool) -> (flags: u32)
    ensures
        flags == if debug {
            D3DCOMPILE_DEBUG | D3DCOMPILE_SKIP_OPTIMIZATION
        } else {
            0
        },
{
    if debug {
        D3DCOMPILE_DEBUG | D3DCOMPILE_SKIP_OPTIMIZATION
    } else {
        0
    }
}

/// Render targets that one pipeline state can write to.
pub const RENDER_TARGET_COUNT: usize = 8;

/// How triangles are turned into pixels. The two depth bias factors are
/// 32-bit floats: they are held as their bits.
#[derive(Clone, Copy, Debug, PartialEq, Eq, Structural)]
pub struct RasterizerDesc {
    pub fill_mode: i32,
    pub cull_mode: i32,
    pub front_counter_clockwise: bool,
    pub depth_bias: i32,
    pub depth_bias_clamp_bits: u32,
    pub slope_scaled_depth_bias_bits: u32,
    pub depth_clip_enable: bool,
    pub multisample_enable: bool,
    pub antialiased_line_enable: bool,
    pub forced_sample_count: u32,
    pub conservative_raster: i32,
}

impl RasterizerDesc {
    /// Solid triangles, those facing away culled, clockwise ones facing
    /// the viewer, depth clipped and not biased, nothing else switched on.
    pub open spec fn spec_reasonable_default() -> RasterizerDesc {
        RasterizerDesc {
            fill_mode: D3D12_FILL_MODE_SOLID,
            cull_mode: D3D12_CULL_MODE_BACK,
            front_counter_clockwise: false,
            depth_bias: D3D12_DEFAULT_DEPTH_BIAS,
            depth_bias_clamp_bits: D3D12_DEFAULT_DEPTH_BIAS_CLAMP_BITS,
            slope_scaled_depth_bias_bits: D3D12_DEFAULT_SLOPE_SCALED_DEPTH_BIAS_BITS,
            depth_clip_enable: true,
            multisample_enable: false,
            antialiased_line_enable: false,
            forced_sample_count: 0,
            conservative_raster: D3D12_CONSERVATIVE_RASTERIZATION_MODE_OFF,
        }
    }

    pub fn reasonable_default() -> (desc: Self)
        ensures
            desc == Self::spec_reasonable_default(),
    {
        RasterizerDesc {
            fill_mode: D3D12_FILL_MODE_SOLID,
            cull_mode: D3D12_CULL_MODE_BACK,
            front_counter_clockwise: false,
            depth_bias: D3D12_DEFAULT_DEPTH_BIAS,
            depth_bias_clamp_bits: D3D12_DEFAULT_DEPTH_BIAS_CLAMP_BITS,
            slope_scaled_depth_bias_bits: D3D12_DEFAULT_SLOPE_SCALED_DEPTH_BIAS_BITS,
            depth_clip_enable: true,
            multisample_enable: false,
            antialiased_line_enable: false,
            forced_sample_count: 0,
            conservative_raster: D3D12_CONSERVATIVE_RASTERIZATION_MODE_OFF,
        }
    }
}

/// How colours are blended into one render target.
#[derive(Clone, Copy, Debug, PartialEq, Eq, Structural)]
pub struct RenderTargetBlendDesc {
    pub blend_enable: bool,
    pub logic_op_enable: bool,
    pub src_blend: i32,
    pub dest_blend: i32,
    pub blend_op: i32,
    pub src_blend_alpha: i32,
    pub dest_blend_alpha: i32,
    pub blend_op_alpha: i32,
    pub logic_op: i32,
    pub render_target_write_mask: u8,
}

impl RenderTargetBlendDesc {
    /// No blending: the new colour replaces the old one in all four
    /// channels.
    pub open spec fn spec_opaque() -> RenderTargetBlendDesc {
        RenderTargetBlendDesc {
            blend_enable: false,
            logic_op_enable: false,
            src_blend: D3D12_BLEND_ONE,
            dest_blend: D3D12_BLEND_ZERO,
            blend_op: D3D12_BLEND_OP_ADD,
            src_blend_alpha: D3D12_BLEND_ONE,
            dest_blend_alpha: D3D12_BLEND_ZERO,
            blend_op_alpha: D3D12_BLEND_OP_ADD,
            logic_op: D3D12_LOGIC_OP_NOOP,
            render_target_write_mask: D3D12_COLOR_WRITE_ENABLE_ALL,
        }
    }

    /// The description of a render target that is not in use: all zero.
    pub open spec fn spec_unused() -> RenderTargetBlendDesc {
        RenderTargetBlendDesc {
            blend_enable: false,
            logic_op_enable: false,
            src_blend: 0,
            dest_blend: 0,
            blend_op: 0,
            src_blend_alpha: 0,
            dest_blend_alpha: 0,
            blend_op_alpha: 0,
            logic_op: 0,
            render_target_write_mask: 0,
        }
    }

    pub fn opaque() -> (desc: Self)
        ensures
            desc == Self::spec_opaque(),
    {
        RenderTargetBlendDesc {
            blend_enable: false,
            logic_op_enable: false,
            src_blend: D3D12_BLEND_ONE,
            dest_blend: D3D12_BLEND_ZERO,
            blend_op: D3D12_BLEND_OP_ADD,
            src_blend_alpha: D3D12_BLEND_ONE,
            dest_blend_alpha: D3D12_BLEND_ZERO,
            blend_op_alpha: D3D12_BLEND_OP_ADD,
            logic_op: D3D12_LOGIC_OP_NOOP,
            render_target_write_mask: D3D12_COLOR_WRITE_ENABLE_ALL,
        }
    }

    pub fn unused() -> (desc: Self)
        ensures
            desc == Self::spec_unused(),
    {
        RenderTargetBlendDesc {
            blend_enable: false,
            logic_op_enable: false,
            src_blend: 0,
            dest_blend: 0,
            blend_op: 0,
            src_blend_alpha: 0,
            dest_blend_alpha: 0,
            blend_op_alpha: 0,
            logic_op: 0,
            render_target_write_mask: 0,
        }
    }
}

/// How colours are blended into the render targets.
#[derive(Clone, Copy, Debug, PartialEq, Eq)]
pub struct BlendDesc {
    pub alpha_to_coverage_enable: bool,
    pub independent_blend_enable: bool,
    pub render_target: [RenderTargetBlendDesc; 8],
}

impl BlendDesc {
    /// One opaque render target, the first; the others not in use.
    pub fn reasonable_default() -> (desc: Self)
        ensures
            !desc.alpha_to_coverage_enable,
            !desc.independent_blend_enable,
            desc.render_target@.len() == RENDER_TARGET_COUNT,
            desc.render_target@[0] == RenderTargetBlendDesc::spec_opaque(),
            forall|i: int|
                1 <= i < RENDER_TARGET_COUNT ==> #[trigger] desc.render_target@[i]
                    == RenderTargetBlendDesc::spec_unused(),
    {
        BlendDesc {
            alpha_to_coverage_enable: false,
            independent_blend_enable: false,
            render_target: [
                RenderTargetBlendDesc::opaque(),
                RenderTargetBlendDesc::unused(),
                RenderTargetBlendDesc::unused(),
                RenderTargetBlendDesc::unused(),
                RenderTargetBlendDesc::unused(),
                RenderTargetBlendDesc::unused(),
                RenderTargetBlendDesc::unused(),
                RenderTargetBlendDesc::unused(),
            ],
        }
    }
}

} // verus!
