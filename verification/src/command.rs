//! Deferred command recording.  A command buffer records GPU commands as
//! data, decoupled from any immediate execution context; `Finish` seals the
//! recorded commands into a submittable list and resets the recorder.  Every
//! recording method appends exactly one command, stated over the recorder's
//! ghost command sequence.

use vstd::prelude::*;
use vstd::pervasive::unreached;
use crate::states::{RasterizerDesc, BlendDesc, DepthStencilDesc};
use crate::texture::{SrvDesc, SliceViewDesc, SamplerInfo};
use crate::render_target::Viewport;
use crate::environment::Light;
use crate::pipeline::{GraphicsPipeline, PrimitiveTopology};
use crate::shader::{Shader, ComputeShader};
use crate::buffers::{VertexBuffer, IndexBuffer};

verus! {

impl DeepView for SrvDesc {
    type V = SrvDesc;

    open spec fn deep_view(&self) -> SrvDesc {
        *self
    }
}

impl DeepView for SliceViewDesc {
    type V = SliceViewDesc;

    open spec fn deep_view(&self) -> SliceViewDesc {
        *self
    }
}

impl DeepView for SamplerInfo {
    type V = SamplerInfo;

    open spec fn deep_view(&self) -> SamplerInfo {
        *self
    }
}

/// A 4-by-4 matrix as sixteen IEEE-754 bit patterns, row by row.
#[derive(Clone, Copy, Debug, PartialEq)]
pub struct Mat4Bits {
    pub m: [u32; 16],
}

impl DeepView for Mat4Bits {
    type V = Mat4Bits;

    open spec fn deep_view(&self) -> Mat4Bits {
        *self
    }
}

/// The per-frame transform constant-buffer block.
#[derive(Clone, Copy, Debug, PartialEq)]
pub struct TransformData {
    pub projection: Mat4Bits,
    pub view: Mat4Bits,
    pub model: Mat4Bits,
    pub camera_position: [u32; 3],
}

impl DeepView for TransformData {
    type V = TransformData;

    open spec fn deep_view(&self) -> TransformData {
        *self
    }
}

/// What a constant-buffer upload carries.
#[derive(Debug)]
pub enum UploadPayload {
    /// Raw bytes, as a material buffer upload sends them.
    Bytes(Vec<u8>),
    /// The per-frame transform block.
    Transforms(TransformData),
    /// The light array of the scene.
    Lights(Vec<Light>),
    /// A prefilter roughness value: exactly `mip / (levels - 1)`.
    Roughness { mip: u32, levels: u32 },
}

/// Ghost image of an upload payload.
pub enum UploadPayloadV {
    Bytes(Seq<u8>),
    Transforms(TransformData),
    Lights(Seq<Light>),
    Roughness { mip: u32, levels: u32 },
}

impl DeepView for UploadPayload {
    type V = UploadPayloadV;

    open spec fn deep_view(&self) -> UploadPayloadV {
        match self {
            UploadPayload::Bytes(b) => UploadPayloadV::Bytes(b@),
            UploadPayload::Transforms(t) => UploadPayloadV::Transforms(*t),
            UploadPayload::Lights(l) => UploadPayloadV::Lights(l@),
            UploadPayload::Roughness { mip, levels } => UploadPayloadV::Roughness {
                mip: *mip,
                levels: *levels,
            },
        }
    }
}

/// One recorded GPU command.
#[derive(Debug)]
pub enum Command {
    Dispatch { shader: String, x: u32, y: u32, z: u32 },
    SetVertexBuffer { buffer: u64, stride: u32 },
    SetIndexBuffer { buffer: u64 },
    UploadVertexBuffer { buffer: u64, bytes: Vec<u8> },
    UploadIndexBuffer { buffer: u64, bytes: Vec<u8> },
    SetPipelineState {
        shader: String,
        raster: RasterizerDesc,
        blend: BlendDesc,
        depth: DepthStencilDesc,
        topology: PrimitiveTopology,
    },
    UploadVSConstantBuffer { register: u32, payload: UploadPayload },
    UploadPSConstantBuffer { register: u32, payload: UploadPayload },
    UploadCSConstantBuffer { shader: String, register: u32, payload: UploadPayload },
    UploadVSMaterialBuffer { register: u32, bytes: Vec<u8> },
    UploadPSMaterialBuffer { register: u32, bytes: Vec<u8> },
    SetPSShaderResources { start_slot: u32, views: Vec<Option<SrvDesc>> },
    SetPSSamplers { start_slot: u32, samplers: Vec<Option<SamplerInfo>> },
    SetCSShaderResources { start_slot: u32, views: Vec<Option<SrvDesc>> },
    SetCSSamplers { start_slot: u32, samplers: Vec<Option<SamplerInfo>> },
    SetCSUnorderedAccessViews { start_slot: u32, views: Vec<Option<SliceViewDesc>> },
    BindMaterialTextures { start_slot: u32, textures: Vec<u64> },
    ClearRenderTarget { view: SliceViewDesc, color: [u32; 4] },
    ClearDepthStencil { view: SliceViewDesc, depth_bits: u32, stencil: u8 },
    SetRenderTargets { views: Vec<SliceViewDesc>, depth: Option<SliceViewDesc> },
    SetViewports { viewport: Viewport },
    DrawIndexed { index_count: u32, start_index: u32, start_vertex: u32 },
    GenerateMips { view: SrvDesc },
    CopyTexture { src: u64, dest: u64, subresource: u32 },
}

/// Ghost image of a recorded command.
pub enum CommandV {
    Dispatch { shader: Seq<char>, x: u32, y: u32, z: u32 },
    SetVertexBuffer { buffer: u64, stride: u32 },
    SetIndexBuffer { buffer: u64 },
    UploadVertexBuffer { buffer: u64, bytes: Seq<u8> },
    UploadIndexBuffer { buffer: u64, bytes: Seq<u8> },
    SetPipelineState {
        shader: Seq<char>,
        raster: RasterizerDesc,
        blend: BlendDesc,
        depth: DepthStencilDesc,
        topology: PrimitiveTopology,
    },
    UploadVSConstantBuffer { register: u32, payload: UploadPayloadV },
    UploadPSConstantBuffer { register: u32, payload: UploadPayloadV },
    UploadCSConstantBuffer { shader: Seq<char>, register: u32, payload: UploadPayloadV },
    UploadVSMaterialBuffer { register: u32, bytes: Seq<u8> },
    UploadPSMaterialBuffer { register: u32, bytes: Seq<u8> },
    SetPSShaderResources { start_slot: u32, views: Seq<Option<SrvDesc>> },
    SetPSSamplers { start_slot: u32, samplers: Seq<Option<SamplerInfo>> },
    SetCSShaderResources { start_slot: u32, views: Seq<Option<SrvDesc>> },
    SetCSSamplers { start_slot: u32, samplers: Seq<Option<SamplerInfo>> },
    SetCSUnorderedAccessViews { start_slot: u32, views: Seq<Option<SliceViewDesc>> },
    BindMaterialTextures { start_slot: u32, textures: Seq<u64> },
    ClearRenderTarget { view: SliceViewDesc, color: [u32; 4] },
    ClearDepthStencil { view: SliceViewDesc, depth_bits: u32, stencil: u8 },
    SetRenderTargets { views: Seq<SliceViewDesc>, depth: Option<SliceViewDesc> },
    SetViewports { viewport: Viewport },
    DrawIndexed { index_count: u32, start_index: u32, start_vertex: u32 },
    GenerateMips { view: SrvDesc },
    CopyTexture { src: u64, dest: u64, subresource: u32 },
}

impl DeepView for Command {
    type V = CommandV;

    open spec fn deep_view(&self) -> CommandV {
        match self {
            Command::Dispatch { shader, x, y, z } => CommandV::Dispatch {
                shader: shader@,
                x: *x,
                y: *y,
                z: *z,
            },
            Command::SetVertexBuffer { buffer, stride } => CommandV::SetVertexBuffer {
                buffer: *buffer,
                stride: *stride,
            },
            Command::SetIndexBuffer { buffer } => CommandV::SetIndexBuffer { buffer: *buffer },
            Command::UploadVertexBuffer { buffer, bytes } => CommandV::UploadVertexBuffer {
                buffer: *buffer,
                bytes: bytes@,
            },
            Command::UploadIndexBuffer { buffer, bytes } => CommandV::UploadIndexBuffer {
                buffer: *buffer,
                bytes: bytes@,
            },
            Command::SetPipelineState { shader, raster, blend, depth, topology } => {
                CommandV::SetPipelineState {
                    shader: shader@,
                    raster: *raster,
                    blend: *blend,
                    depth: *depth,
                    topology: *topology,
                }
            },
            Command::UploadVSConstantBuffer { register, payload } => {
                CommandV::UploadVSConstantBuffer {
                    register: *register,
                    payload: payload.deep_view(),
                }
            },
            Command::UploadPSConstantBuffer { register, payload } => {
                CommandV::UploadPSConstantBuffer {
                    register: *register,
                    payload: payload.deep_view(),
                }
            },
            Command::UploadCSConstantBuffer { shader, register, payload } => {
                CommandV::UploadCSConstantBuffer {
                    shader: shader@,
                    register: *register,
                    payload: payload.deep_view(),
                }
            },
            Command::UploadVSMaterialBuffer { register, bytes } => {
                CommandV::UploadVSMaterialBuffer { register: *register, bytes: bytes@ }
            },
            Command::UploadPSMaterialBuffer { register, bytes } => {
                CommandV::UploadPSMaterialBuffer { register: *register, bytes: bytes@ }
            },
            Command::SetPSShaderResources { start_slot, views } => {
                CommandV::SetPSShaderResources {
                    start_slot: *start_slot,
                    views: views@,
                }
            },
            Command::SetPSSamplers { start_slot, samplers } => CommandV::SetPSSamplers {
                start_slot: *start_slot,
                samplers: samplers@,
            },
            Command::SetCSShaderResources { start_slot, views } => {
                CommandV::SetCSShaderResources {
                    start_slot: *start_slot,
                    views: views@,
                }
            },
            Command::SetCSSamplers { start_slot, samplers } => CommandV::SetCSSamplers {
                start_slot: *start_slot,
                samplers: samplers@,
            },
            Command::SetCSUnorderedAccessViews { start_slot, views } => {
                CommandV::SetCSUnorderedAccessViews {
                    start_slot: *start_slot,
                    views: views@,
                }
            },
            Command::BindMaterialTextures { start_slot, textures } => {
                CommandV::BindMaterialTextures {
                    start_slot: *start_slot,
                    textures: textures@,
                }
            },
            Command::ClearRenderTarget { view, color } => CommandV::ClearRenderTarget {
                view: *view,
                color: *color,
            },
            Command::ClearDepthStencil { view, depth_bits, stencil } => {
                CommandV::ClearDepthStencil {
                    view: *view,
                    depth_bits: *depth_bits,
                    stencil: *stencil,
                }
            },
            Command::SetRenderTargets { views, depth } => CommandV::SetRenderTargets {
                views: views@,
                depth: *depth,
            },
            Command::SetViewports { viewport } => CommandV::SetViewports { viewport: *viewport },
            Command::DrawIndexed { index_count, start_index, start_vertex } => {
                CommandV::DrawIndexed {
                    index_count: *index_count,
                    start_index: *start_index,
                    start_vertex: *start_vertex,
                }
            },
            Command::GenerateMips { view } => CommandV::GenerateMips { view: *view },
            Command::CopyTexture { src, dest, subresource } => CommandV::CopyTexture {
                src: *src,
                dest: *dest,
                subresource: *subresource,
            },
        }
    }
}

/// A deferred command recorder: commands recorded so far, and the sealed
/// command list once `Finish` has run.
pub struct CommandBuffer {
    pub recorded: Vec<Command>,
    pub command_list: Option<Vec<Command>>,
}

impl CommandBuffer {
    /// The commands recorded since creation or the last `Finish`.
    pub open spec fn spec_recorded(self) -> Seq<CommandV> {
        self.recorded.deep_view()
    }

    /// The sealed command list, if `Finish` has run.
    pub open spec fn spec_list(self) -> Option<Seq<CommandV>> {
        match self.command_list {
            Some(l) => Some(l.deep_view()),
            None => None,
        }
    }

    /// A fresh recorder with nothing recorded and no sealed list.
    pub fn Create() -> (r: CommandBuffer)
        ensures
            r.spec_recorded() == Seq::<CommandV>::empty(),
            r.spec_list() is None,
    {
        let r = CommandBuffer { recorded: Vec::new(), command_list: None };
        proof {
            assert(r.spec_recorded() =~= Seq::<CommandV>::empty());
        }
        r
    }

    /// Discards the sealed command list.
    pub fn Reset(&mut self)
        ensures
            final(self).spec_recorded() == old(self).spec_recorded(),
            final(self).spec_list() is None,
    {
        self.command_list = None;
    }

    /// Seals the recorded commands into the command list and resets the
    /// recorder.
    pub fn Finish(&mut self)
        ensures
            final(self).spec_list() == Some(old(self).spec_recorded()),
            final(self).spec_recorded() == Seq::<CommandV>::empty(),
    {
        let mut recorded: Vec<Command> = Vec::new();
        core::mem::swap(&mut self.recorded, &mut recorded);
        self.command_list = Some(recorded);
        proof {
            assert(self.spec_recorded() =~= Seq::<CommandV>::empty());
        }
    }

    /// Hands the sealed command list to the caller for execution and leaves
    /// the recorder with no sealed list, as executing a command buffer does.
    pub fn TakeCommandList(&mut self) -> (r: Vec<Command>)
        requires
            old(self).spec_list() is Some,
        ensures
            r.deep_view() == old(self).spec_list()->Some_0,
            final(self).spec_list() is None,
            final(self).spec_recorded() == old(self).spec_recorded(),
    {
        let mut taken: Option<Vec<Command>> = None;
        core::mem::swap(&mut self.command_list, &mut taken);
        match taken {
            Some(v) => v,
            None => unreached(),
        }
    }

    pub fn GetCommandList(&self) -> (r: &Option<Vec<Command>>)
        ensures
            r == &self.command_list,
    {
        &self.command_list
    }

    /// Appends one command to the recording.
    fn push_cmd(&mut self, cmd: Command)
        ensures
            final(self).spec_recorded() == old(self).spec_recorded().push(cmd.deep_view()),
            final(self).spec_list() == old(self).spec_list(),
    {
        self.recorded.push(cmd);
        proof {
            assert(self.recorded.deep_view() =~= old(self).recorded.deep_view().push(
                self.recorded@[self.recorded@.len() - 1].deep_view(),
            ));
        }
    }

    /// Records a compute dispatch with the given thread-group counts.
    pub fn DispatchComputeShader(
        &mut self,
        shader: &ComputeShader,
        threadGroupCountX: u32,
        threadGroupCountY: u32,
        threadGroupCountZ: u32,
    )
        ensures
            final(self).spec_recorded() == old(self).spec_recorded().push(
                CommandV::Dispatch {
                    shader: shader.name@,
                    x: threadGroupCountX,
                    y: threadGroupCountY,
                    z: threadGroupCountZ,
                },
            ),
            final(self).spec_list() == old(self).spec_list(),
    {
        self.push_cmd(
            Command::Dispatch {
                shader: shader.GetName().clone(),
                x: threadGroupCountX,
                y: threadGroupCountY,
                z: threadGroupCountZ,
            },
        );
    }

    /// Records binding a vertex buffer with its stride.
    pub fn SetVertexBuffer(&mut self, vertexBuffer: &VertexBuffer)
        ensures
            final(self).spec_recorded() == old(self).spec_recorded().push(
                CommandV::SetVertexBuffer {
                    buffer: vertexBuffer.id,
                    stride: vertexBuffer.stride,
                },
            ),
            final(self).spec_list() == old(self).spec_list(),
    {
        self.push_cmd(
            Command::SetVertexBuffer { buffer: vertexBuffer.id, stride: vertexBuffer.GetStride() },
        );
    }

    /// Records binding an index buffer.
    pub fn SetIndexBuffer(&mut self, indexBuffer: &IndexBuffer)
        ensures
            final(self).spec_recorded() == old(self).spec_recorded().push(
                CommandV::SetIndexBuffer { buffer: indexBuffer.id },
            ),
            final(self).spec_list() == old(self).spec_list(),
    {
        self.push_cmd(Command::SetIndexBuffer { buffer: indexBuffer.id });
    }

    /// Records a write-discard upload into a vertex buffer; the payload must
    /// fit the buffer's capacity.
    pub fn SetVertexBufferData(&mut self, data: Vec<u8>, vertexBuffer: &VertexBuffer)
        requires
            data@.len() <= vertexBuffer.size,
        ensures
            final(self).spec_recorded() == old(self).spec_recorded().push(
                CommandV::UploadVertexBuffer { buffer: vertexBuffer.id, bytes: data@ },
            ),
            final(self).spec_list() == old(self).spec_list(),
    {
        self.push_cmd(Command::UploadVertexBuffer { buffer: vertexBuffer.id, bytes: data });
    }

    /// Records a write-discard upload into an index buffer; the payload must
    /// fit the buffer's capacity.
    pub fn SetIndexBufferData(&mut self, data: Vec<u8>, indexBuffer: &IndexBuffer)
        requires
            data@.len() <= indexBuffer.size,
        ensures
            final(self).spec_recorded() == old(self).spec_recorded().push(
                CommandV::UploadIndexBuffer { buffer: indexBuffer.id, bytes: data@ },
            ),
            final(self).spec_list() == old(self).spec_list(),
    {
        self.push_cmd(Command::UploadIndexBuffer { buffer: indexBuffer.id, bytes: data });
    }

    /// Records binding a pipeline's shader and current state snapshot.
    pub fn SetGraphicsPipelineState(&mut self, pipeline: &GraphicsPipeline)
        ensures
            final(self).spec_recorded() == old(self).spec_recorded().push(
                CommandV::SetPipelineState {
                    shader: pipeline.shader_name@,
                    raster: pipeline.rasterizer_state,
                    blend: pipeline.blend_state,
                    depth: pipeline.depth_stencil_state,
                    topology: pipeline.topology,
                },
            ),
            final(self).spec_list() == old(self).spec_list(),
    {
        self.push_cmd(
            Command::SetPipelineState {
                shader: pipeline.GetShaderName().clone(),
                raster: *pipeline.GetRasterizerState(),
                blend: *pipeline.GetBlendState(),
                depth: *pipeline.GetDepthStencilState(),
                topology: pipeline.GetPrimitiveTopology(),
            },
        );
    }

    /// Records an upload into a vertex-stage system constant buffer; the
    /// register must name one of the shader's buffer slots.
    pub fn SetVSConstantBufferData(
        &mut self,
        shader: &Shader,
        data: UploadPayload,
        bufferRegister: u32,
    )
        requires
            bufferRegister < shader.vs_buffer_slots@.len(),
        ensures
            final(self).spec_recorded() == old(self).spec_recorded().push(
                CommandV::UploadVSConstantBuffer {
                    register: bufferRegister,
                    payload: data.deep_view(),
                },
            ),
            final(self).spec_list() == old(self).spec_list(),
    {
        self.push_cmd(Command::UploadVSConstantBuffer { register: bufferRegister, payload: data });
    }

    /// Records an upload into a pixel-stage system constant buffer.
    pub fn SetPSConstantBufferData(
        &mut self,
        shader: &Shader,
        data: UploadPayload,
        bufferRegister: u32,
    )
        requires
            bufferRegister < shader.ps_buffer_slots@.len(),
        ensures
            final(self).spec_recorded() == old(self).spec_recorded().push(
                CommandV::UploadPSConstantBuffer {
                    register: bufferRegister,
                    payload: data.deep_view(),
                },
            ),
            final(self).spec_list() == old(self).spec_list(),
    {
        self.push_cmd(Command::UploadPSConstantBuffer { register: bufferRegister, payload: data });
    }

    /// Records an upload into a compute-stage constant buffer.
    pub fn SetCSConstantBufferData(
        &mut self,
        shader: &ComputeShader,
        data: UploadPayload,
        bufferRegister: u32,
    )
        requires
            bufferRegister < shader.buffer_slots@.len(),
        ensures
            final(self).spec_recorded() == old(self).spec_recorded().push(
                CommandV::UploadCSConstantBuffer {
                    shader: shader.name@,
                    register: bufferRegister,
                    payload: data.deep_view(),
                },
            ),
            final(self).spec_list() == old(self).spec_list(),
    {
        self.push_cmd(
            Command::UploadCSConstantBuffer {
                shader: shader.GetName().clone(),
                register: bufferRegister,
                payload: data,
            },
        );
    }

    /// Records the upload of a material's vertex-stage bytes into the
    /// shader's material constant buffer; the shader must declare one and
    /// its register must name a slot.
    pub fn SetVSMaterialConstantBufferData(&mut self, shader: &Shader, data: &Vec<u8>)
        requires
            shader.reflection.vs_material_buffer is Some,
            shader.reflection.vs_material_buffer->Some_0.register
                < shader.vs_buffer_slots@.len(),
            data@.len() <= shader.reflection.vs_material_buffer->Some_0.size,
        ensures
            final(self).spec_recorded() == old(self).spec_recorded().push(
                CommandV::UploadVSMaterialBuffer {
                    register: shader.reflection.vs_material_buffer->Some_0.register,
                    bytes: data@,
                },
            ),
            final(self).spec_list() == old(self).spec_list(),
    {
        let register = match shader.GetVSMaterialConstantBuffer() {
            Some(cb) => cb.GetRegister(),
            None => unreached(),
        };
        let bytes = copy_bytes(data);
        self.push_cmd(Command::UploadVSMaterialBuffer { register, bytes });
    }

    /// Records the upload of a material's pixel-stage bytes into the
    /// shader's material constant buffer.
    pub fn SetPSMaterialConstantBufferData(&mut self, shader: &Shader, data: &Vec<u8>)
        requires
            shader.reflection.ps_material_buffer is Some,
            shader.reflection.ps_material_buffer->Some_0.register
                < shader.ps_buffer_slots@.len(),
            data@.len() <= shader.reflection.ps_material_buffer->Some_0.size,
        ensures
            final(self).spec_recorded() == old(self).spec_recorded().push(
                CommandV::UploadPSMaterialBuffer {
                    register: shader.reflection.ps_material_buffer->Some_0.register,
                    bytes: data@,
                },
            ),
            final(self).spec_list() == old(self).spec_list(),
    {
        let register = match shader.GetPSMaterialConstantBuffer() {
            Some(cb) => cb.GetRegister(),
            None => unreached(),
        };
        let bytes = copy_bytes(data);
        self.push_cmd(Command::UploadPSMaterialBuffer { register, bytes });
    }

    /// Records binding pixel-stage shader resource views from a start slot.
    pub fn SetPSShaderResources(&mut self, views: Vec<Option<SrvDesc>>, startSlot: u32)
        ensures
            final(self).spec_recorded() == old(self).spec_recorded().push(
                CommandV::SetPSShaderResources { start_slot: startSlot, views: views@ },
            ),
            final(self).spec_list() == old(self).spec_list(),
    {
        self.push_cmd(Command::SetPSShaderResources { start_slot: startSlot, views });
    }

    /// Records binding pixel-stage samplers from a start slot.
    pub fn SetPSSamplers(&mut self, samplers: Vec<Option<SamplerInfo>>, startSlot: u32)
        ensures
            final(self).spec_recorded() == old(self).spec_recorded().push(
                CommandV::SetPSSamplers { start_slot: startSlot, samplers: samplers@ },
            ),
            final(self).spec_list() == old(self).spec_list(),
    {
        self.push_cmd(Command::SetPSSamplers { start_slot: startSlot, samplers });
    }

    /// Records binding compute-stage shader resource views.
    pub fn SetCSShaderResources(&mut self, views: Vec<Option<SrvDesc>>, startSlot: u32)
        ensures
            final(self).spec_recorded() == old(self).spec_recorded().push(
                CommandV::SetCSShaderResources { start_slot: startSlot, views: views@ },
            ),
            final(self).spec_list() == old(self).spec_list(),
    {
        self.push_cmd(Command::SetCSShaderResources { start_slot: startSlot, views });
    }

    /// Records binding compute-stage samplers.
    pub fn SetCSSamplers(&mut self, samplers: Vec<Option<SamplerInfo>>, startSlot: u32)
        ensures
            final(self).spec_recorded() == old(self).spec_recorded().push(
                CommandV::SetCSSamplers { start_slot: startSlot, samplers: samplers@ },
            ),
            final(self).spec_list() == old(self).spec_list(),
    {
        self.push_cmd(Command::SetCSSamplers { start_slot: startSlot, samplers });
    }

    /// Records binding compute-stage unordered-access views.
    pub fn SetCSUnorderedAccessViews(&mut self, views: Vec<Option<SliceViewDesc>>, startSlot: u32)
        ensures
            final(self).spec_recorded() == old(self).spec_recorded().push(
                CommandV::SetCSUnorderedAccessViews {
                    start_slot: startSlot,
                    views: views@,
                },
            ),
            final(self).spec_list() == old(self).spec_list(),
    {
        self.push_cmd(Command::SetCSUnorderedAccessViews { start_slot: startSlot, views });
    }

    /// Records binding a material's texture handles from a start slot.
    pub fn BindMaterialTextures(&mut self, textures: Vec<u64>, startSlot: u32)
        ensures
            final(self).spec_recorded() == old(self).spec_recorded().push(
                CommandV::BindMaterialTextures {
                    start_slot: startSlot,
                    textures: textures@,
                },
            ),
            final(self).spec_list() == old(self).spec_list(),
    {
        self.push_cmd(Command::BindMaterialTextures { start_slot: startSlot, textures });
    }

    /// Records clearing one render-target view to a color.
    pub fn ClearRenderTarget(&mut self, renderTarget: &SliceViewDesc, color: [u32; 4])
        ensures
            final(self).spec_recorded() == old(self).spec_recorded().push(
                CommandV::ClearRenderTarget { view: *renderTarget, color },
            ),
            final(self).spec_list() == old(self).spec_list(),
    {
        self.push_cmd(Command::ClearRenderTarget { view: *renderTarget, color });
    }

    /// Records clearing a depth-stencil view.
    pub fn ClearDepthStencilBuffer(
        &mut self,
        depthBuffer: &SliceViewDesc,
        depthClearValueBits: u32,
        stencilClearValue: u8,
    )
        ensures
            final(self).spec_recorded() == old(self).spec_recorded().push(
                CommandV::ClearDepthStencil {
                    view: *depthBuffer,
                    depth_bits: depthClearValueBits,
                    stencil: stencilClearValue,
                },
            ),
            final(self).spec_list() == old(self).spec_list(),
    {
        self.push_cmd(
            Command::ClearDepthStencil {
                view: *depthBuffer,
                depth_bits: depthClearValueBits,
                stencil: stencilClearValue,
            },
        );
    }

    /// Records binding the output-merger render targets.
    pub fn SetRenderTargets(&mut self, renderTargets: Vec<SliceViewDesc>, depthBuffer: Option<
        SliceViewDesc,
    >)
        ensures
            final(self).spec_recorded() == old(self).spec_recorded().push(
                CommandV::SetRenderTargets { views: renderTargets@, depth: depthBuffer },
            ),
            final(self).spec_list() == old(self).spec_list(),
    {
        self.push_cmd(Command::SetRenderTargets { views: renderTargets, depth: depthBuffer });
    }

    /// Records setting the viewport.
    pub fn SetViewports(&mut self, viewport: Viewport)
        ensures
            final(self).spec_recorded() == old(self).spec_recorded().push(
                CommandV::SetViewports { viewport },
            ),
            final(self).spec_list() == old(self).spec_list(),
    {
        self.push_cmd(Command::SetViewports { viewport });
    }

    /// Records an indexed draw.
    pub fn DrawIndexed(&mut self, indexCount: u32, startIndex: u32, startVertex: u32)
        ensures
            final(self).spec_recorded() == old(self).spec_recorded().push(
                CommandV::DrawIndexed {
                    index_count: indexCount,
                    start_index: startIndex,
                    start_vertex: startVertex,
                },
            ),
            final(self).spec_list() == old(self).spec_list(),
    {
        self.push_cmd(
            Command::DrawIndexed {
                index_count: indexCount,
                start_index: startIndex,
                start_vertex: startVertex,
            },
        );
    }

    /// Records mip generation over a shader-resource view.
    pub fn GenerateMips(&mut self, srv: &SrvDesc)
        ensures
            final(self).spec_recorded() == old(self).spec_recorded().push(
                CommandV::GenerateMips { view: *srv },
            ),
            final(self).spec_list() == old(self).spec_list(),
    {
        self.push_cmd(Command::GenerateMips { view: *srv });
    }

    /// Records copying one subresource between two textures.
    pub fn CopyTexture(&mut self, src: u64, dest: u64, subresourceIndex: u32)
        ensures
            final(self).spec_recorded() == old(self).spec_recorded().push(
                CommandV::CopyTexture { src, dest, subresource: subresourceIndex },
            ),
            final(self).spec_list() == old(self).spec_list(),
    {
        self.push_cmd(Command::CopyTexture { src, dest, subresource: subresourceIndex });
    }
}

/// Little-endian bytes of the matrix entries from index `i` on.
pub open spec fn spec_mat4_bytes_from(m: Mat4Bits, i: int) -> Seq<u8>
    decreases 16 - i,
{
    if i < 0 || i >= 16 {
        Seq::empty()
    } else {
        vstd::bytes::spec_u32_to_le_bytes(m.m[i]) + spec_mat4_bytes_from(m, i + 1)
    }
}

/// The 64 little-endian bytes of a matrix, as a constant-buffer upload
/// carries them.
pub open spec fn spec_mat4_le_bytes(m: Mat4Bits) -> Seq<u8> {
    spec_mat4_bytes_from(m, 0)
}

/// A matrix serializes to exactly 64 bytes.
pub proof fn lemma_mat4_bytes_len(m: Mat4Bits)
    ensures
        spec_mat4_le_bytes(m).len() == 64,
{
    lemma_mat4_bytes_from_len(m, 0);
}

proof fn lemma_mat4_bytes_from_len(m: Mat4Bits, i: int)
    requires
        0 <= i <= 16,
    ensures
        spec_mat4_bytes_from(m, i).len() == 4 * (16 - i),
    decreases 16 - i,
{
    if i < 16 {
        vstd::bytes::lemma_auto_spec_u32_to_from_le_bytes();
        lemma_mat4_bytes_from_len(m, i + 1);
    }
}

/// Serializes a matrix into its 64 upload bytes.
pub fn mat4_to_le_bytes(m: &Mat4Bits) -> (r: Vec<u8>)
    ensures
        r@ == spec_mat4_le_bytes(*m),
{
    let mut out: Vec<u8> = Vec::new();
    let mut i: usize = 0;
    proof {
        assert(out@ + spec_mat4_bytes_from(*m, 0) =~= spec_mat4_bytes_from(*m, 0));
    }
    while i < 16
        invariant
            i <= 16,
            spec_mat4_le_bytes(*m) == out@ + spec_mat4_bytes_from(*m, i as int),
        decreases 16 - i,
    {
        let word = vstd::bytes::u32_to_le_bytes(m.m[i]);
        let mut j: usize = 0;
        let ghost base = out@;
        while j < 4
            invariant
                j <= 4,
                word@.len() == 4,
                word@ == vstd::bytes::spec_u32_to_le_bytes(m.m[i as int]),
                out@ == base + word@.take(j as int),
            decreases 4 - j,
        {
            out.push(word[j]);
            proof {
                assert(out@ =~= base + word@.take(j as int + 1));
            }
            j = j + 1;
        }
        proof {
            assert(word@.take(4) =~= word@);
            assert((base + word@) + spec_mat4_bytes_from(*m, i as int + 1) =~= base + (word@
                + spec_mat4_bytes_from(*m, i as int + 1)));
        }
        i = i + 1;
    }
    proof {
        assert(spec_mat4_bytes_from(*m, 16) =~= Seq::<u8>::empty());
        assert(out@ + Seq::<u8>::empty() =~= out@);
    }
    out
}

/// Transpose of a matrix: a pure rearrangement of its sixteen entries.
pub open spec fn spec_transpose(m: Mat4Bits) -> Mat4Bits {
    Mat4Bits {
        m: [
            m.m[0],
            m.m[4],
            m.m[8],
            m.m[12],
            m.m[1],
            m.m[5],
            m.m[9],
            m.m[13],
            m.m[2],
            m.m[6],
            m.m[10],
            m.m[14],
            m.m[3],
            m.m[7],
            m.m[11],
            m.m[15],
        ],
    }
}

/// Transposes a matrix of bit patterns.
pub fn transpose_mat4(m: &Mat4Bits) -> (r: Mat4Bits)
    ensures
        r == spec_transpose(*m),
{
    Mat4Bits {
        m: [
            m.m[0],
            m.m[4],
            m.m[8],
            m.m[12],
            m.m[1],
            m.m[5],
            m.m[9],
            m.m[13],
            m.m[2],
            m.m[6],
            m.m[10],
            m.m[14],
            m.m[3],
            m.m[7],
            m.m[11],
            m.m[15],
        ],
    }
}

/// A copy of a byte vector.
pub fn copy_bytes(data: &Vec<u8>) -> (r: Vec<u8>)
    ensures
        r@ == data@,
{
    let n = data.len();
    let mut v: Vec<u8> = Vec::new();
    let mut i: usize = 0;
    while i < n
        invariant
            n == data@.len(),
            i <= n,
            v@ == data@.take(i as int),
        decreases n - i,
    {
        v.push(data[i]);
        proof {
            assert(v@ =~= data@.take(i as int + 1));
        }
        i = i + 1;
    }
    proof {
        assert(data@.take(n as int) =~= data@);
    }
    v
}

} // verus!
