//! Graphics pipelines: an input layout, a shader reference by name, a
//! primitive topology and the three mutable state descriptors.  The scene
//! renderer overwrites the descriptors with each material's states before a
//! draw, so a pipeline is a state carrier, not an immutable object.

use vstd::prelude::*;
use crate::states::{RasterizerDesc, BlendDesc, DepthStencilDesc};
use crate::texture::TextureFormat;

verus! {

#[derive(Clone, Copy, Debug, PartialEq, Eq, Structural)]
pub enum PrimitiveTopology {
    TriangleList,
    LineList,
}

/// One vertex input element; `aligned_byte_offset` of `None` appends the
/// element right after the previous one.
pub struct InputElementDesc {
    pub semantic_name: String,
    pub semantic_index: u32,
    pub format: TextureFormat,
    pub input_slot: u32,
    pub aligned_byte_offset: Option<u32>,
    pub instance_data_step_rate: u32,
}

/// What a pipeline is built from.
pub struct GraphicsPipelineDescription {
    pub RasterizerStateDesc: RasterizerDesc,
    pub BlendStateDesc: BlendDesc,
    pub DepthStencilStateDesc: DepthStencilDesc,
    pub ShaderName: String,
    pub InputLayoutDesc: Vec<InputElementDesc>,
    pub Topology: PrimitiveTopology,
}

/// A graphics pipeline.
pub struct GraphicsPipeline {
    pub shader_name: String,
    pub rasterizer_state: RasterizerDesc,
    pub blend_state: BlendDesc,
    pub depth_stencil_state: DepthStencilDesc,
    pub input_layout: Vec<InputElementDesc>,
    pub topology: PrimitiveTopology,
}

impl GraphicsPipeline {
    /// Builds a pipeline from its description.
    pub fn Create(description: GraphicsPipelineDescription) -> (r: GraphicsPipeline)
        ensures
            r.shader_name == description.ShaderName,
            r.rasterizer_state == description.RasterizerStateDesc,
            r.blend_state == description.BlendStateDesc,
            r.depth_stencil_state == description.DepthStencilStateDesc,
            r.input_layout@ == description.InputLayoutDesc@,
            r.topology == description.Topology,
    {
        GraphicsPipeline {
            shader_name: description.ShaderName,
            rasterizer_state: description.RasterizerStateDesc,
            blend_state: description.BlendStateDesc,
            depth_stencil_state: description.DepthStencilStateDesc,
            input_layout: description.InputLayoutDesc,
            topology: description.Topology,
        }
    }

    /// Overwrites the rasterizer state for the next draw.
    pub fn SetRasterizerState(&mut self, desc: &RasterizerDesc)
        ensures
            final(self).rasterizer_state == *desc,
            *final(self) == (GraphicsPipeline {
                rasterizer_state: *desc,
                ..*old(self)
            }),
    {
        self.rasterizer_state = *desc;
    }

    /// Overwrites the blend state for the next draw.
    pub fn SetBlendState(&mut self, desc: &BlendDesc)
        ensures
            final(self).blend_state == *desc,
            *final(self) == (GraphicsPipeline { blend_state: *desc, ..*old(self) }),
    {
        self.blend_state = *desc;
    }

    /// Overwrites the depth-stencil state for the next draw.
    pub fn SetDepthStencilState(&mut self, desc: &DepthStencilDesc)
        ensures
            final(self).depth_stencil_state == *desc,
            *final(self) == (GraphicsPipeline {
                depth_stencil_state: *desc,
                ..*old(self)
            }),
    {
        self.depth_stencil_state = *desc;
    }

    pub fn GetShaderName(&self) -> (r: &String)
        ensures
            r == &self.shader_name,
    {
        &self.shader_name
    }

    pub fn GetRasterizerState(&self) -> (r: &RasterizerDesc)
        ensures
            r == &self.rasterizer_state,
    {
        &self.rasterizer_state
    }

    pub fn GetBlendState(&self) -> (r: &BlendDesc)
        ensures
            r == &self.blend_state,
    {
        &self.blend_state
    }

    pub fn GetDepthStencilState(&self) -> (r: &DepthStencilDesc)
        ensures
            r == &self.depth_stencil_state,
    {
        &self.depth_stencil_state
    }

    pub fn GetInputLayout(&self) -> (r: &Vec<InputElementDesc>)
        ensures
            r == &self.input_layout,
    {
        &self.input_layout
    }

    pub fn GetPrimitiveTopology(&self) -> (r: PrimitiveTopology)
        ensures
            r == self.topology,
    {
        self.topology
    }
}

} // verus!
