//! Render-state descriptors derived from a material's flags: rasterizer,
//! blend and depth-stencil state, modeled as plain values.  The stencil pass
//! operation is fixed to increment-saturate on both faces, by convention.

use vstd::prelude::*;

verus! {

/// Render flags of a material.
#[derive(Clone, Copy, Debug, PartialEq, Eq, Structural)]
pub struct MaterialFlags {
    pub two_sided: bool,
    pub disable_depth_test: bool,
    pub wireframe: bool,
    pub transparent: bool,
}

impl MaterialFlags {
    /// Flags with nothing set: one-sided, depth-tested, solid, opaque.
    pub fn empty() -> (r: MaterialFlags)
        ensures
            r == (MaterialFlags {
                two_sided: false,
                disable_depth_test: false,
                wireframe: false,
                transparent: false,
            }),
    {
        MaterialFlags { two_sided: false, disable_depth_test: false, wireframe: false, transparent: false }
    }
}

#[derive(Clone, Copy, Debug, PartialEq, Eq, Structural)]
pub enum CullMode {
    NoCulling,
    Back,
}

#[derive(Clone, Copy, Debug, PartialEq, Eq, Structural)]
pub enum FillMode {
    Solid,
    Wireframe,
}

#[derive(Clone, Copy, Debug, PartialEq, Eq, Structural)]
pub enum ComparisonFunc {
    Never,
    LessEqual,
    Always,
}

#[derive(Clone, Copy, Debug, PartialEq, Eq, Structural)]
pub enum DepthWriteMask {
    Zero,
    All,
}

#[derive(Clone, Copy, Debug, PartialEq, Eq, Structural)]
pub enum BlendFactor {
    One,
    Zero,
    SrcAlpha,
    InvSrcAlpha,
}

#[derive(Clone, Copy, Debug, PartialEq, Eq, Structural)]
pub enum BlendOp {
    Add,
}

#[derive(Clone, Copy, Debug, PartialEq, Eq, Structural)]
pub enum StencilOp {
    Keep,
    IncrSat,
}

/// Rasterizer state; bias fields the renderer never varies are fixed to the
/// device defaults.
#[derive(Clone, Copy, Debug, PartialEq, Eq, Structural)]
pub struct RasterizerDesc {
    pub cull_mode: CullMode,
    pub fill_mode: FillMode,
    pub front_counter_clockwise: bool,
    pub depth_clip_enable: bool,
    pub antialiased_line_enable: bool,
    pub multisample_enable: bool,
    pub scissor_enable: bool,
    pub depth_bias: i32,
}

/// Blend state of the first render target; the renderer never enables
/// independent blending, so one entry describes them all.
#[derive(Clone, Copy, Debug, PartialEq, Eq, Structural)]
pub struct BlendDesc {
    pub alpha_to_coverage: bool,
    pub independent_blend: bool,
    pub blend_enable: bool,
    pub src_blend: BlendFactor,
    pub dest_blend: BlendFactor,
    pub blend_op: BlendOp,
    pub src_blend_alpha: BlendFactor,
    pub dest_blend_alpha: BlendFactor,
    pub blend_op_alpha: BlendOp,
    pub write_mask_all: bool,
}

#[derive(Clone, Copy, Debug, PartialEq, Eq, Structural)]
pub struct StencilFaceDesc {
    pub stencil_func: ComparisonFunc,
    pub stencil_fail_op: StencilOp,
    pub stencil_pass_op: StencilOp,
    pub stencil_depth_fail_op: StencilOp,
}

#[derive(Clone, Copy, Debug, PartialEq, Eq, Structural)]
pub struct DepthStencilDesc {
    pub depth_enable: bool,
    pub depth_func: ComparisonFunc,
    pub depth_write_mask: DepthWriteMask,
    pub stencil_enable: bool,
    pub stencil_read_mask: u8,
    pub stencil_write_mask: u8,
    pub front_face: StencilFaceDesc,
    pub back_face: StencilFaceDesc,
}

/// Rasterizer state a material's flags call for: cull mode follows the
/// two-sided flag, fill mode the wireframe flag.
pub open spec fn spec_rasterizer_for(flags: MaterialFlags) -> RasterizerDesc {
    RasterizerDesc {
        cull_mode: if flags.two_sided {
            CullMode::NoCulling
        } else {
            CullMode::Back
        },
        fill_mode: if flags.wireframe {
            FillMode::Wireframe
        } else {
            FillMode::Solid
        },
        front_counter_clockwise: true,
        depth_clip_enable: true,
        antialiased_line_enable: false,
        multisample_enable: false,
        scissor_enable: false,
        depth_bias: 0,
    }
}

/// Blend state a material's flags call for: the transparent flag enables
/// standard source-alpha blending.
pub open spec fn spec_blend_for(flags: MaterialFlags) -> BlendDesc {
    if flags.transparent {
        BlendDesc {
            alpha_to_coverage: false,
            independent_blend: false,
            blend_enable: true,
            src_blend: BlendFactor::SrcAlpha,
            dest_blend: BlendFactor::InvSrcAlpha,
            blend_op: BlendOp::Add,
            src_blend_alpha: BlendFactor::SrcAlpha,
            dest_blend_alpha: BlendFactor::InvSrcAlpha,
            blend_op_alpha: BlendOp::Add,
            write_mask_all: true,
        }
    } else {
        BlendDesc {
            alpha_to_coverage: false,
            independent_blend: false,
            blend_enable: false,
            src_blend: BlendFactor::One,
            dest_blend: BlendFactor::Zero,
            blend_op: BlendOp::Add,
            src_blend_alpha: BlendFactor::One,
            dest_blend_alpha: BlendFactor::Zero,
            blend_op_alpha: BlendOp::Add,
            write_mask_all: true,
        }
    }
}

/// Depth-stencil state a material's flags call for: the depth test follows
/// the disable flag; stencil is always enabled with increment-saturate pass
/// operations on both faces.
pub open spec fn spec_depth_for(flags: MaterialFlags) -> DepthStencilDesc {
    let face = StencilFaceDesc {
        stencil_func: ComparisonFunc::Always,
        stencil_fail_op: StencilOp::Keep,
        stencil_pass_op: StencilOp::IncrSat,
        stencil_depth_fail_op: StencilOp::Keep,
    };
    if !flags.disable_depth_test {
        DepthStencilDesc {
            depth_enable: true,
            depth_func: ComparisonFunc::LessEqual,
            depth_write_mask: DepthWriteMask::All,
            stencil_enable: true,
            stencil_read_mask: 0xff,
            stencil_write_mask: 0xff,
            front_face: face,
            back_face: face,
        }
    } else {
        DepthStencilDesc {
            depth_enable: false,
            depth_func: ComparisonFunc::Always,
            depth_write_mask: DepthWriteMask::Zero,
            stencil_enable: true,
            stencil_read_mask: 0xff,
            stencil_write_mask: 0xff,
            front_face: face,
            back_face: face,
        }
    }
}

} // verus!
