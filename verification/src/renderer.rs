//! The device-global renderer: shared fullscreen-quad geometry, fallback
//! textures, the precomputed BRDF lookup texture, render-pass setup, mesh
//! and fullscreen-quad drawing, and the four-stage environment-map baking
//! pipeline for image-based lighting.  Everything a frame does to the GPU is
//! recorded as commands whose exact sequence the contracts state.

use vstd::prelude::*;
use vstd::pervasive::unreached;
use crate::texture::{
    Texture, TextureDescription, SamplerDescription, ResourceIds, BindFlags, TextureFormat,
    TextureWrap, TextureFilter, SrvDesc, SliceViewDesc, SamplerInfo,
};
use crate::render_target::{RenderTarget, Viewport};
use crate::buffers::{
    VertexBuffer, IndexBuffer, VertexBufferDescription, IndexBufferDescription, BufferUsage,
    IndexFormat,
};
use crate::command::{CommandBuffer, CommandV, UploadPayload, UploadPayloadV, TransformData};
use crate::pipeline::GraphicsPipeline;
use crate::shader::{Shader, ComputeShader};
use crate::shader_library::{ShaderLibrary, spec_find_compute_shader};
use crate::material::Material;
use crate::mesh::Mesh;
use crate::environment::F32_ONE_BITS;

verus! {

/// Bit pattern of three tenths as a 32-bit float: the swap-chain clear gray
/// and the default exposure.
pub const F32_POINT_THREE_BITS: u32 = 0x3E99999A;

/// Face size of the baked environment cubemaps.
pub const ENVIRONMENT_MAP_SIZE: u32 = 1024;

/// Mip levels of the baked environment cubemaps; prefiltering steps the
/// roughness by one tenth per mip.
pub const ENVIRONMENT_MAP_MIPS: u32 = 11;

/// Face size of the irradiance cubemap.
pub const IRRADIANCE_MAP_SIZE: u32 = 32;

/// Side length of the BRDF lookup texture.
pub const BRDF_LUT_SIZE: u32 = 256;

/// Threads per compute thread-group dimension.
pub const COMPUTE_GROUP_SIZE: u32 = 32;

/// An unordered-access view over all six faces of one cubemap mip.
pub open spec fn spec_uav_all_faces(texture: u64, format: TextureFormat, mip: u32) -> SliceViewDesc {
    SliceViewDesc {
        texture,
        format,
        is_array: true,
        mip_slice: mip,
        first_array_slice: 0,
        array_size: 6,
    }
}

/// The clear commands of a render pass: one clear per color view, then a
/// depth clear to one when a depth view exists.
pub open spec fn spec_clear_cmds(
    rtvs: Seq<SliceViewDesc>,
    color: [u32; 4],
    dsv: Option<SliceViewDesc>,
) -> Seq<CommandV> {
    Seq::new(rtvs.len(), |i: int| CommandV::ClearRenderTarget { view: rtvs[i], color }) + (
    match dsv {
        Some(v) => seq![
            CommandV::ClearDepthStencil { view: v, depth_bits: F32_ONE_BITS, stencil: 0 },
        ],
        None => Seq::empty(),
    })
}

/// The commands that begin a render pass: optional clears, then binding the
/// targets and the viewport.
pub open spec fn spec_begin_render_pass_cmds(
    rtvs: Seq<SliceViewDesc>,
    color: [u32; 4],
    dsv: Option<SliceViewDesc>,
    viewport: Viewport,
    clear: bool,
) -> Seq<CommandV> {
    (if clear {
        spec_clear_cmds(rtvs, color, dsv)
    } else {
        Seq::empty()
    }) + seq![
        CommandV::SetRenderTargets { views: rtvs, depth: dsv },
        CommandV::SetViewports { viewport },
    ]
}

/// The commands that draw one submesh range with one material: uploads of
/// the transform block and the material's byte buffers, texture binding, the
/// pipeline-state snapshot carrying the material's states, geometry binding
/// and the indexed draw.
pub open spec fn spec_render_mesh_cmds(
    shader_name: Seq<char>,
    vb: VertexBuffer,
    ib: IndexBuffer,
    index_count: u32,
    index_offset: u32,
    vertex_offset: u32,
    material: Material,
    material_shader: Shader,
    uniform: Option<TransformData>,
    topology: crate::pipeline::PrimitiveTopology,
) -> Seq<CommandV> {
    (match uniform {
        Some(t) => seq![
            CommandV::UploadVSConstantBuffer {
                register: 0,
                payload: UploadPayloadV::Transforms(t),
            },
        ],
        None => Seq::empty(),
    }) + (if material.vs_uniform_buffer@.len() > 0 {
        seq![
            CommandV::UploadVSMaterialBuffer {
                register: material_shader.reflection.vs_material_buffer->Some_0.register,
                bytes: material.vs_uniform_buffer@,
            },
        ]
    } else {
        Seq::empty()
    }) + (if material.ps_uniform_buffer@.len() > 0 {
        seq![
            CommandV::UploadPSMaterialBuffer {
                register: material_shader.reflection.ps_material_buffer->Some_0.register,
                bytes: material.ps_uniform_buffer@,
            },
        ]
    } else {
        Seq::empty()
    }) + seq![
        CommandV::BindMaterialTextures { start_slot: 0, textures: material.textures@ },
        CommandV::SetPipelineState {
            shader: shader_name,
            raster: material.rasterizer_state,
            blend: material.blend_state,
            depth: material.depth_state,
            topology,
        },
        CommandV::SetVertexBuffer { buffer: vb.id, stride: vb.stride },
        CommandV::SetIndexBuffer { buffer: ib.id },
        CommandV::DrawIndexed {
            index_count,
            start_index: index_offset,
            start_vertex: vertex_offset,
        },
    ]
}

/// The preconditions drawing with a material puts on its shader: whenever a
/// stage's byte buffer is nonempty, the shader declares that stage's
/// material constant buffer on a register with a slot.
pub open spec fn material_upload_ok(material: Material, material_shader: Shader) -> bool {
    &&& material.vs_uniform_buffer@.len() > 0 ==> {
        &&& material_shader.reflection.vs_material_buffer is Some
        &&& material_shader.reflection.vs_material_buffer->Some_0.register
            < material_shader.vs_buffer_slots@.len()
        &&& material.vs_uniform_buffer@.len()
            <= material_shader.reflection.vs_material_buffer->Some_0.size
    }
    &&& material.ps_uniform_buffer@.len() > 0 ==> {
        &&& material_shader.reflection.ps_material_buffer is Some
        &&& material_shader.reflection.ps_material_buffer->Some_0.register
            < material_shader.ps_buffer_slots@.len()
        &&& material.ps_uniform_buffer@.len()
            <= material_shader.reflection.ps_material_buffer->Some_0.size
    }
}

/// The prefilter commands for mips `mip..levels` of the environment map:
/// per mip, a roughness upload of exactly `mip / (levels - 1)`, the mip's
/// unordered-access view, and a dispatch sized to the mip's face size.
pub open spec fn spec_prefilter_cmds(
    prefilter: Seq<char>,
    env_id: u64,
    mip: int,
    levels: u32,
    size: int,
) -> Seq<CommandV>
    decreases levels - mip,
{
    if mip < 0 || mip >= levels {
        Seq::empty()
    } else {
        let groups = if size / 32 >= 1 {
            size / 32
        } else {
            1
        };
        seq![
            CommandV::UploadCSConstantBuffer {
                shader: prefilter,
                register: 0,
                payload: UploadPayloadV::Roughness { mip: mip as u32, levels },
            },
            CommandV::SetCSUnorderedAccessViews {
                start_slot: 0,
                views: seq![
                    Some(
                        spec_uav_all_faces(
                            env_id,
                            TextureFormat::R16G16B16A16Float,
                            mip as u32,
                        ),
                    ),
                ],
            },
            CommandV::Dispatch { shader: prefilter, x: groups as u32, y: groups as u32, z: 6 },
        ] + spec_prefilter_cmds(prefilter, env_id, mip + 1, levels, size / 2)
    }
}

/// The subresource copies that seed mip zero of the filtered cubemap from
/// the unfiltered one, face by face.
pub open spec fn spec_seed_copy_cmds(unfiltered: u64, env: u64, slice: int) -> Seq<CommandV>
    decreases 6 - slice,
{
    if slice < 0 || slice >= 6 {
        Seq::empty()
    } else {
        seq![
            CommandV::CopyTexture {
                src: unfiltered,
                dest: env,
                subresource: (slice * ENVIRONMENT_MAP_MIPS) as u32,
            },
        ] + spec_seed_copy_cmds(unfiltered, env, slice + 1)
    }
}

/// The whole baked command stream of one environment map: equirectangular
/// projection into the unfiltered cubemap, mip-zero seeding and roughness
/// prefiltering of the filtered cubemap, and the irradiance convolution.
pub open spec fn spec_bake_cmds(
    equirect: Seq<char>,
    prefilter: Seq<char>,
    irradiance: Seq<char>,
    hdr_srv: SrvDesc,
    hdr_sampler: SamplerInfo,
    unfiltered_id: u64,
    env_id: u64,
    irr_id: u64,
) -> Seq<CommandV> {
    let compute_sampler = SamplerInfo {
        wrap: TextureWrap::Wrap,
        filter: TextureFilter::MinMagMipLinear,
        max_anisotropy: 1,
    };
    let unfiltered_srv = SrvDesc {
        texture: unfiltered_id,
        format: TextureFormat::R16G16B16A16Float,
        is_cube: true,
        most_detailed_mip: 0,
        mip_levels: ENVIRONMENT_MAP_MIPS,
    };
    let env_srv = SrvDesc {
        texture: env_id,
        format: TextureFormat::R16G16B16A16Float,
        is_cube: true,
        most_detailed_mip: 0,
        mip_levels: ENVIRONMENT_MAP_MIPS,
    };
    seq![
        CommandV::SetCSShaderResources { start_slot: 0, views: seq![Some(hdr_srv)] },
        CommandV::SetCSSamplers { start_slot: 0, samplers: seq![Some(hdr_sampler)] },
        CommandV::SetCSUnorderedAccessViews {
            start_slot: 0,
            views: seq![
                Some(spec_uav_all_faces(unfiltered_id, TextureFormat::R16G16B16A16Float, 0)),
            ],
        },
        CommandV::Dispatch { shader: equirect, x: 32, y: 32, z: 6 },
        CommandV::SetCSUnorderedAccessViews { start_slot: 0, views: seq![None] },
    ] + spec_seed_copy_cmds(unfiltered_id, env_id, 0) + seq![
        CommandV::SetCSShaderResources { start_slot: 0, views: seq![Some(unfiltered_srv)] },
        CommandV::SetCSSamplers { start_slot: 0, samplers: seq![Some(compute_sampler)] },
    ] + spec_prefilter_cmds(prefilter, env_id, 1, ENVIRONMENT_MAP_MIPS, 512) + seq![
        CommandV::SetCSUnorderedAccessViews { start_slot: 0, views: seq![None] },
        CommandV::SetCSShaderResources { start_slot: 0, views: seq![Some(env_srv)] },
        CommandV::SetCSSamplers { start_slot: 0, samplers: seq![Some(compute_sampler)] },
        CommandV::SetCSUnorderedAccessViews {
            start_slot: 0,
            views: seq![Some(spec_uav_all_faces(irr_id, TextureFormat::R16G16B16A16Float, 0))],
        },
        CommandV::Dispatch { shader: irradiance, x: 1, y: 1, z: 6 },
        CommandV::SetCSUnorderedAccessViews { start_slot: 0, views: seq![None] },
    ]
}

/// The prefilter stream holds three commands per remaining mip.
pub proof fn lemma_prefilter_len(
    prefilter: Seq<char>,
    env_id: u64,
    mip: int,
    levels: u32,
    size: int,
)
    requires
        0 <= mip <= levels,
    ensures
        spec_prefilter_cmds(prefilter, env_id, mip, levels, size).len() == 3 * (levels - mip),
    decreases levels - mip,
{
    if mip < levels {
        lemma_prefilter_len(prefilter, env_id, mip + 1, levels, size / 2);
    }
}

/// Prefilter-roundness law: in the prefilter command stream starting at mip
/// one, the roughness upload of mip `m` carries exactly the fraction
/// `m / (levels - 1)`: for eleven mips, steps of one tenth.
pub proof fn lemma_prefilter_roughness(
    prefilter: Seq<char>,
    env_id: u64,
    mip: int,
    levels: u32,
    size: int,
    m: int,
)
    requires
        0 <= mip <= m < levels,
    ensures
        spec_prefilter_cmds(prefilter, env_id, mip, levels, size)[3 * (m - mip)]
            == (CommandV::UploadCSConstantBuffer {
            shader: prefilter,
            register: 0,
            payload: UploadPayloadV::Roughness { mip: m as u32, levels },
        }),
    decreases m - mip,
{
    if m > mip {
        lemma_prefilter_roughness(prefilter, env_id, mip + 1, levels, size / 2, m);
        lemma_prefilter_len(prefilter, env_id, mip, levels, size);
        lemma_prefilter_len(prefilter, env_id, mip + 1, levels, size / 2);
        let full = spec_prefilter_cmds(prefilter, env_id, mip, levels, size);
        let rest = spec_prefilter_cmds(prefilter, env_id, mip + 1, levels, size / 2);
        assert(full.skip(3) =~= rest);
        assert(full[3 * (m - mip)] == full.skip(3)[3 * (m - mip) - 3]);
    }
}

/// Shared renderer data: fullscreen-quad geometry, fallback textures and
/// the BRDF lookup texture.
pub struct RendererData {
    pub FullscreenQuadVB: VertexBuffer,
    pub FullscreenQuadIB: IndexBuffer,
    pub BRDFTexture: Texture,
    pub BlackTexture: Texture,
    pub BlackTextureCube: Texture,
}

/// The device-global renderer.
pub struct Renderer {
    pub data: RendererData,
}

impl Renderer {
    /// Creates the shared quad geometry, the fallback textures and the BRDF
    /// lookup texture, and records the one-time BRDF integration dispatch,
    /// sealed into the given recorder for submission.
    pub fn Initialize(library: &ShaderLibrary, ids: &mut ResourceIds, commandBuffer: &mut
        CommandBuffer) -> (r: Renderer)
        requires
            spec_find_compute_shader(library.compute_shaders@, "environment_brdf"@) is Some,
            old(ids).next + 5 <= u64::MAX,
        ensures
            final(ids).next == old(ids).next + 5,
            r.data.FullscreenQuadVB.vertex_count == 4,
            r.data.FullscreenQuadVB.stride == 20,
            r.data.FullscreenQuadVB.size == 80,
            r.data.FullscreenQuadIB.index_count == 6,
            r.data.FullscreenQuadIB.format == IndexFormat::R32Uint,
            r.data.BRDFTexture.width == BRDF_LUT_SIZE,
            r.data.BRDFTexture.height == BRDF_LUT_SIZE,
            r.data.BRDFTexture.storage_format == TextureFormat::R16G16Float,
            r.data.BRDFTexture.mip_count == 1,
            !r.data.BRDFTexture.is_cubemap,
            r.data.BRDFTexture.bind_flags.shader_resource,
            r.data.BRDFTexture.bind_flags.unordered_access,
            r.data.BlackTexture.width == 1 && r.data.BlackTexture.height == 1,
            !r.data.BlackTexture.is_cubemap,
            r.data.BlackTextureCube.width == 1 && r.data.BlackTextureCube.height == 1,
            r.data.BlackTextureCube.is_cubemap,
            final(commandBuffer).spec_list() == Some(
                old(commandBuffer).spec_recorded() + seq![
                    CommandV::SetCSUnorderedAccessViews {
                        start_slot: 0,
                        views: seq![
                            Some(
                                SliceViewDesc {
                                    texture: r.data.BRDFTexture.id,
                                    format: TextureFormat::R16G16Float,
                                    is_array: false,
                                    mip_slice: 0,
                                    first_array_slice: 0,
                                    array_size: 1,
                                },
                            ),
                        ],
                    },
                    CommandV::Dispatch { shader: "environment_brdf"@, x: 8, y: 8, z: 1 },
                    CommandV::SetCSUnorderedAccessViews { start_slot: 0, views: seq![None] },
                ],
            ),
            final(commandBuffer).spec_recorded() == Seq::<CommandV>::empty(),
    {
        let quad_vb = VertexBuffer::Create(
            &VertexBufferDescription {
                VertexCount: 4,
                Stride: 20,
                Size: 80,
                Usage: BufferUsage::Default,
            },
            ids,
        );
        let quad_ib = IndexBuffer::Create(
            &IndexBufferDescription {
                IndexCount: 6,
                Size: 24,
                Format: IndexFormat::R32Uint,
                Usage: BufferUsage::Default,
            },
            ids,
        );

        let mut black_dims: Vec<Option<crate::texture::ImageDims>> = Vec::new();
        black_dims.push(
            Some(crate::texture::ImageDims { width: 1, height: 1, bytes_per_pixel: 4, is_hdr: false }),
        );
        let black_texture = Texture::CreateTexture2D(
            &TextureDescription {
                name: String::new(),
                format: TextureFormat::B8G8R8A8Unorm,
                width: 0,
                height: 0,
                mip_count: 1,
                bind_flags: BindFlags {
                    shader_resource: true,
                    render_target: false,
                    depth_stencil: false,
                    unordered_access: false,
                },
                image_dims: black_dims,
            },
            &SamplerDescription { wrap: TextureWrap::Wrap, filter: TextureFilter::Anisotropic },
            ids,
        );
        let mut cube_dims: Vec<Option<crate::texture::ImageDims>> = Vec::new();
        cube_dims.push(
            Some(crate::texture::ImageDims { width: 1, height: 1, bytes_per_pixel: 4, is_hdr: false }),
        );
        let black_texture_cube = Texture::CreateTextureCube(
            &TextureDescription {
                name: String::new(),
                format: TextureFormat::B8G8R8A8Unorm,
                width: 0,
                height: 0,
                mip_count: 1,
                bind_flags: BindFlags {
                    shader_resource: true,
                    render_target: false,
                    depth_stencil: false,
                    unordered_access: false,
                },
                image_dims: cube_dims,
            },
            &SamplerDescription { wrap: TextureWrap::Wrap, filter: TextureFilter::Anisotropic },
            ids,
        );

        let brdf_texture = Texture::CreateTexture2D(
            &TextureDescription {
                name: String::new(),
                format: TextureFormat::R16G16Float,
                width: BRDF_LUT_SIZE,
                height: BRDF_LUT_SIZE,
                mip_count: 1,
                bind_flags: BindFlags {
                    shader_resource: true,
                    render_target: false,
                    depth_stencil: false,
                    unordered_access: true,
                },
                image_dims: Vec::new(),
            },
            &SamplerDescription {
                wrap: TextureWrap::Clamp,
                filter: TextureFilter::MinMagMipLinear,
            },
            ids,
        );

        let brdf_shader = match library.GetComputeShader("environment_brdf") {
            Some(s) => s,
            None => unreached(),
        };
        proof {
            crate::shader_library::lemma_find_compute_shader_name(
                library.compute_shaders@,
                "environment_brdf"@,
            );
        }
        let brdf_uav = brdf_texture.CreateUAV(0, 0);
        let mut uavs: Vec<Option<SliceViewDesc>> = Vec::new();
        uavs.push(Some(brdf_uav));
        proof {
            assert(uavs@ =~= seq![Some(brdf_uav)]);
        }
        commandBuffer.SetCSUnorderedAccessViews(uavs, 0);
        commandBuffer.DispatchComputeShader(
            brdf_shader,
            BRDF_LUT_SIZE / COMPUTE_GROUP_SIZE,
            BRDF_LUT_SIZE / COMPUTE_GROUP_SIZE,
            1,
        );
        let mut null_uavs: Vec<Option<SliceViewDesc>> = Vec::new();
        null_uavs.push(None);
        proof {
            assert(null_uavs@ =~= seq![None::<SliceViewDesc>]);
            assert(commandBuffer.spec_recorded() =~= old(commandBuffer).spec_recorded() + seq![
                CommandV::SetCSUnorderedAccessViews {
                    start_slot: 0,
                    views: seq![
                        Some(
                            SliceViewDesc {
                                texture: brdf_texture.id,
                                format: TextureFormat::R16G16Float,
                                is_array: false,
                                mip_slice: 0,
                                first_array_slice: 0,
                                array_size: 1,
                            },
                        ),
                    ],
                },
                CommandV::Dispatch { shader: "environment_brdf"@, x: 8, y: 8, z: 1 },
            ]);
        }
        commandBuffer.SetCSUnorderedAccessViews(null_uavs, 0);
        proof {
            assert(commandBuffer.spec_recorded() =~= old(commandBuffer).spec_recorded() + seq![
                CommandV::SetCSUnorderedAccessViews {
                    start_slot: 0,
                    views: seq![
                        Some(
                            SliceViewDesc {
                                texture: brdf_texture.id,
                                format: TextureFormat::R16G16Float,
                                is_array: false,
                                mip_slice: 0,
                                first_array_slice: 0,
                                array_size: 1,
                            },
                        ),
                    ],
                },
                CommandV::Dispatch { shader: "environment_brdf"@, x: 8, y: 8, z: 1 },
                CommandV::SetCSUnorderedAccessViews { start_slot: 0, views: seq![None] },
            ]);
        }
        commandBuffer.Finish();

        Renderer {
            data: RendererData {
                FullscreenQuadVB: quad_vb,
                FullscreenQuadIB: quad_ib,
                BRDFTexture: brdf_texture,
                BlackTexture: black_texture,
                BlackTextureCube: black_texture_cube,
            },
        }
    }

    pub fn GetBRDF(&self) -> (r: &Texture)
        ensures
            r == &self.data.BRDFTexture,
    {
        &self.data.BRDFTexture
    }

    pub fn GetBlackTexture(&self) -> (r: &Texture)
        ensures
            r == &self.data.BlackTexture,
    {
        &self.data.BlackTexture
    }

    pub fn GetBlackTextureCube(&self) -> (r: &Texture)
        ensures
            r == &self.data.BlackTextureCube,
    {
        &self.data.BlackTextureCube
    }

    /// Bakes one environment map: projects the equirectangular texture onto
    /// an unfiltered cubemap, seeds and roughness-prefilters the filtered
    /// cubemap mip by mip, and convolves the irradiance cubemap.  All three
    /// stages record into the one command buffer.
    pub fn CreateEnvironmentMap(
        commandBuffer: &mut CommandBuffer,
        library: &ShaderLibrary,
        hdrTexture: &Texture,
        name: &str,
        ids: &mut ResourceIds,
    ) -> (r: (Texture, Texture))
        requires
            spec_find_compute_shader(
                library.compute_shaders@,
                "environment_equirect_to_cube"@,
            ) is Some,
            spec_find_compute_shader(library.compute_shaders@, "environment_prefilter"@)
                matches Some(ps) && ps.buffer_slots@.len() > 0,
            spec_find_compute_shader(library.compute_shaders@, "environment_irradiance"@)
                is Some,
            hdrTexture.bind_flags.shader_resource,
            old(ids).next + 3 <= u64::MAX,
        ensures
            ({
                let (env, irr) = r;
                &&& env.width == ENVIRONMENT_MAP_SIZE
                &&& env.height == ENVIRONMENT_MAP_SIZE
                &&& env.mip_count == ENVIRONMENT_MAP_MIPS
                &&& env.is_cubemap
                &&& env.array_size == 6
                &&& env.storage_format == TextureFormat::R16G16B16A16Float
                &&& env.name@ == name@
                &&& irr.width == IRRADIANCE_MAP_SIZE
                &&& irr.height == IRRADIANCE_MAP_SIZE
                &&& irr.mip_count == 1
                &&& irr.is_cubemap
                &&& irr.array_size == 6
                &&& irr.storage_format == TextureFormat::R16G16B16A16Float
                &&& final(commandBuffer).spec_recorded() == old(commandBuffer).spec_recorded()
                    + spec_bake_cmds(
                    "environment_equirect_to_cube"@,
                    "environment_prefilter"@,
                    "environment_irradiance"@,
                    SrvDesc {
                        texture: hdrTexture.id,
                        format: crate::texture::spec_srv_format(hdrTexture.storage_format),
                        is_cube: hdrTexture.is_cubemap,
                        most_detailed_mip: 0,
                        mip_levels: hdrTexture.mip_count,
                    },
                    SamplerInfo {
                        wrap: hdrTexture.wrap,
                        filter: hdrTexture.filter,
                        max_anisotropy: hdrTexture.max_anisotropy,
                    },
                    old(ids).next,
                    env.id,
                    irr.id,
                )
                &&& final(commandBuffer).spec_list() == old(commandBuffer).spec_list()
                &&& final(ids).next == old(ids).next + 3
            }),
    {
        let compute_sampler = SamplerDescription {
            wrap: TextureWrap::Wrap,
            filter: TextureFilter::MinMagMipLinear,
        };

        // Phase one: equirectangular map to unfiltered cubemap.
        let env_unfiltered = Texture::CreateTextureCube(
            &TextureDescription {
                name: String::new(),
                format: TextureFormat::R16G16B16A16Float,
                width: ENVIRONMENT_MAP_SIZE,
                height: ENVIRONMENT_MAP_SIZE,
                mip_count: ENVIRONMENT_MAP_MIPS,
                bind_flags: BindFlags {
                    shader_resource: true,
                    render_target: false,
                    depth_stencil: false,
                    unordered_access: true,
                },
                image_dims: Vec::new(),
            },
            &compute_sampler,
            ids,
        );
        let equirect_shader = match library.GetComputeShader("environment_equirect_to_cube") {
            Some(s) => s,
            None => unreached(),
        };
        proof {
            crate::shader_library::lemma_find_compute_shader_name(
                library.compute_shaders@,
                "environment_equirect_to_cube"@,
            );
        }

        let hdr_srv = hdrTexture.CreateSRV();
        let hdr_sampler = hdrTexture.SamplerInfo();
        let mut hdr_views: Vec<Option<SrvDesc>> = Vec::new();
        hdr_views.push(Some(hdr_srv));
        proof {
            assert(hdr_views@ =~= seq![Some(hdr_srv)]);
        }
        commandBuffer.SetCSShaderResources(hdr_views, 0);
        let mut hdr_samplers: Vec<Option<SamplerInfo>> = Vec::new();
        hdr_samplers.push(Some(hdr_sampler));
        proof {
            assert(hdr_samplers@ =~= seq![Some(hdr_sampler)]);
        }
        commandBuffer.SetCSSamplers(hdr_samplers, 0);
        let unfiltered_uav = env_unfiltered.CreateUAV(-1, 0);
        let mut uavs: Vec<Option<SliceViewDesc>> = Vec::new();
        uavs.push(Some(unfiltered_uav));
        proof {
            assert(uavs@ =~= seq![Some(unfiltered_uav)]);
        }
        commandBuffer.SetCSUnorderedAccessViews(uavs, 0);
        commandBuffer.DispatchComputeShader(
            equirect_shader,
            ENVIRONMENT_MAP_SIZE / COMPUTE_GROUP_SIZE,
            ENVIRONMENT_MAP_SIZE / COMPUTE_GROUP_SIZE,
            6,
        );
        let mut null_uavs: Vec<Option<SliceViewDesc>> = Vec::new();
        null_uavs.push(None);
        proof {
            assert(null_uavs@ =~= seq![None::<SliceViewDesc>]);
        }
        commandBuffer.SetCSUnorderedAccessViews(null_uavs, 0);

        let unfiltered_srv = env_unfiltered.CreateSRV();

        // Phase two: seed mip zero and prefilter the mip chain.
        let environment_map = Texture::CreateTextureCube(
            &TextureDescription {
                name: name.to_owned(),
                format: TextureFormat::R16G16B16A16Float,
                width: ENVIRONMENT_MAP_SIZE,
                height: ENVIRONMENT_MAP_SIZE,
                mip_count: ENVIRONMENT_MAP_MIPS,
                bind_flags: BindFlags {
                    shader_resource: true,
                    render_target: false,
                    depth_stencil: false,
                    unordered_access: true,
                },
                image_dims: Vec::new(),
            },
            &compute_sampler,
            ids,
        );
        let prefilter_shader = match library.GetComputeShader("environment_prefilter") {
            Some(s) => s,
            None => unreached(),
        };
        proof {
            crate::shader_library::lemma_find_compute_shader_name(
                library.compute_shaders@,
                "environment_prefilter"@,
            );
        }

        let ghost base_copies = commandBuffer.spec_recorded();
        let ghost base_list = commandBuffer.spec_list();
        let mut slice: u32 = 0;
        while slice < 6
            invariant
                slice <= 6,
                commandBuffer.spec_recorded() + spec_seed_copy_cmds(
                    env_unfiltered.id,
                    environment_map.id,
                    slice as int,
                ) == base_copies + spec_seed_copy_cmds(env_unfiltered.id, environment_map.id, 0),
                commandBuffer.spec_list() == base_list,
            decreases 6 - slice,
        {
            let ghost prev = commandBuffer.spec_recorded();
            commandBuffer.CopyTexture(
                env_unfiltered.id,
                environment_map.id,
                slice * ENVIRONMENT_MAP_MIPS,
            );
            proof {
                assert(commandBuffer.spec_recorded() + spec_seed_copy_cmds(
                    env_unfiltered.id,
                    environment_map.id,
                    slice as int + 1,
                ) =~= prev + spec_seed_copy_cmds(
                    env_unfiltered.id,
                    environment_map.id,
                    slice as int,
                ));
            }
            slice = slice + 1;
        }
        proof {
            assert(spec_seed_copy_cmds(env_unfiltered.id, environment_map.id, 6) =~= Seq::<
                CommandV,
            >::empty());
            assert(commandBuffer.spec_recorded() + Seq::<CommandV>::empty()
                =~= commandBuffer.spec_recorded());
        }

        let mut unf_views: Vec<Option<SrvDesc>> = Vec::new();
        unf_views.push(Some(unfiltered_srv));
        proof {
            assert(unf_views@ =~= seq![Some(unfiltered_srv)]);
        }
        commandBuffer.SetCSShaderResources(unf_views, 0);
        let unf_sampler = env_unfiltered.SamplerInfo();
        let mut unf_samplers: Vec<Option<SamplerInfo>> = Vec::new();
        unf_samplers.push(Some(unf_sampler));
        proof {
            assert(unf_samplers@ =~= seq![Some(unf_sampler)]);
        }
        commandBuffer.SetCSSamplers(unf_samplers, 0);

        let ghost base_prefilter = commandBuffer.spec_recorded();
        let mut size: u32 = ENVIRONMENT_MAP_SIZE / 2;
        let mut mip: u32 = 1;
        while mip < ENVIRONMENT_MAP_MIPS
            invariant
                1 <= mip <= ENVIRONMENT_MAP_MIPS,
                prefilter_shader.name@ == "environment_prefilter"@,
                prefilter_shader.buffer_slots@.len() > 0,
                environment_map.bind_flags.unordered_access,
                environment_map.is_cubemap,
                environment_map.array_size == 6,
                environment_map.mip_count == ENVIRONMENT_MAP_MIPS,
                environment_map.storage_format == TextureFormat::R16G16B16A16Float,
                commandBuffer.spec_recorded() + spec_prefilter_cmds(
                    "environment_prefilter"@,
                    environment_map.id,
                    mip as int,
                    ENVIRONMENT_MAP_MIPS,
                    size as int,
                ) == base_prefilter + spec_prefilter_cmds(
                    "environment_prefilter"@,
                    environment_map.id,
                    1,
                    ENVIRONMENT_MAP_MIPS,
                    512,
                ),
                commandBuffer.spec_list() == base_list,
            decreases ENVIRONMENT_MAP_MIPS - mip,
        {
            let ghost prev = commandBuffer.spec_recorded();
            let num_groups = if size / COMPUTE_GROUP_SIZE >= 1 {
                size / COMPUTE_GROUP_SIZE
            } else {
                1
            };
            commandBuffer.SetCSConstantBufferData(
                prefilter_shader,
                UploadPayload::Roughness { mip, levels: ENVIRONMENT_MAP_MIPS },
                0,
            );
            let mut mip_uavs: Vec<Option<SliceViewDesc>> = Vec::new();
            mip_uavs.push(Some(environment_map.CreateUAV(-1, mip)));
            commandBuffer.SetCSUnorderedAccessViews(mip_uavs, 0);
            commandBuffer.DispatchComputeShader(prefilter_shader, num_groups, num_groups, 6);
            proof {
                assert(mip_uavs@ =~= seq![
                    Some(
                        spec_uav_all_faces(
                            environment_map.id,
                            TextureFormat::R16G16B16A16Float,
                            mip,
                        ),
                    ),
                ]);
                assert(commandBuffer.spec_recorded() + spec_prefilter_cmds(
                    "environment_prefilter"@,
                    environment_map.id,
                    mip as int + 1,
                    ENVIRONMENT_MAP_MIPS,
                    size as int / 2,
                ) =~= prev + spec_prefilter_cmds(
                    "environment_prefilter"@,
                    environment_map.id,
                    mip as int,
                    ENVIRONMENT_MAP_MIPS,
                    size as int,
                ));
            }
            size = size / 2;
            mip = mip + 1;
        }
        proof {
            assert(spec_prefilter_cmds(
                "environment_prefilter"@,
                environment_map.id,
                ENVIRONMENT_MAP_MIPS as int,
                ENVIRONMENT_MAP_MIPS,
                size as int,
            ) =~= Seq::<CommandV>::empty());
            assert(commandBuffer.spec_recorded() + Seq::<CommandV>::empty()
                =~= commandBuffer.spec_recorded());
        }

        let mut null_uavs2: Vec<Option<SliceViewDesc>> = Vec::new();
        null_uavs2.push(None);
        proof {
            assert(null_uavs2@ =~= seq![None::<SliceViewDesc>]);
        }
        commandBuffer.SetCSUnorderedAccessViews(null_uavs2, 0);

        // Phase three: irradiance convolution.
        let irradiance_map = Texture::CreateTextureCube(
            &TextureDescription {
                name: name.to_owned(),
                format: TextureFormat::R16G16B16A16Float,
                width: IRRADIANCE_MAP_SIZE,
                height: IRRADIANCE_MAP_SIZE,
                mip_count: 1,
                bind_flags: BindFlags {
                    shader_resource: true,
                    render_target: false,
                    depth_stencil: false,
                    unordered_access: true,
                },
                image_dims: Vec::new(),
            },
            &compute_sampler,
            ids,
        );
        let irradiance_shader = match library.GetComputeShader("environment_irradiance") {
            Some(s) => s,
            None => unreached(),
        };
        proof {
            crate::shader_library::lemma_find_compute_shader_name(
                library.compute_shaders@,
                "environment_irradiance"@,
            );
        }

        let env_srv = environment_map.CreateSRV();
        let mut env_views: Vec<Option<SrvDesc>> = Vec::new();
        env_views.push(Some(env_srv));
        proof {
            assert(env_views@ =~= seq![Some(env_srv)]);
        }
        commandBuffer.SetCSShaderResources(env_views, 0);
        let env_sampler = environment_map.SamplerInfo();
        let mut env_samplers: Vec<Option<SamplerInfo>> = Vec::new();
        env_samplers.push(Some(env_sampler));
        proof {
            assert(env_samplers@ =~= seq![Some(env_sampler)]);
        }
        commandBuffer.SetCSSamplers(env_samplers, 0);
        let irr_uav = irradiance_map.CreateUAV(-1, 0);
        let mut irr_uavs: Vec<Option<SliceViewDesc>> = Vec::new();
        irr_uavs.push(Some(irr_uav));
        proof {
            assert(irr_uavs@ =~= seq![Some(irr_uav)]);
        }
        commandBuffer.SetCSUnorderedAccessViews(irr_uavs, 0);
        commandBuffer.DispatchComputeShader(
            irradiance_shader,
            IRRADIANCE_MAP_SIZE / COMPUTE_GROUP_SIZE,
            IRRADIANCE_MAP_SIZE / COMPUTE_GROUP_SIZE,
            6,
        );
        let mut null_uavs3: Vec<Option<SliceViewDesc>> = Vec::new();
        null_uavs3.push(None);
        proof {
            assert(null_uavs3@ =~= seq![None::<SliceViewDesc>]);
        }
        commandBuffer.SetCSUnorderedAccessViews(null_uavs3, 0);

        proof {
            assert(commandBuffer.spec_recorded() =~= old(commandBuffer).spec_recorded()
                + spec_bake_cmds(
                "environment_equirect_to_cube"@,
                "environment_prefilter"@,
                "environment_irradiance"@,
                hdr_srv,
                hdr_sampler,
                env_unfiltered.id,
                environment_map.id,
                irradiance_map.id,
            ));
        }
        (environment_map, irradiance_map)
    }
}


/// A copy of a view-descriptor vector.
pub fn copy_views(src: &Vec<SliceViewDesc>) -> (r: Vec<SliceViewDesc>)
    ensures
        r@ == src@,
{
    let n = src.len();
    let mut v: Vec<SliceViewDesc> = Vec::new();
    let mut i: usize = 0;
    while i < n
        invariant
            n == src@.len(),
            i <= n,
            v@ == src@.take(i as int),
        decreases n - i,
    {
        v.push(src[i]);
        proof {
            assert(v@ =~= src@.take(i as int + 1));
        }
        i = i + 1;
    }
    proof {
        assert(src@.take(n as int) =~= src@);
    }
    v
}

/// A copy of a texture-handle vector.
pub fn copy_ids(src: &Vec<u64>) -> (r: Vec<u64>)
    ensures
        r@ == src@,
{
    let n = src.len();
    let mut v: Vec<u64> = Vec::new();
    let mut i: usize = 0;
    while i < n
        invariant
            n == src@.len(),
            i <= n,
            v@ == src@.take(i as int),
        decreases n - i,
    {
        v.push(src[i]);
        proof {
            assert(v@ =~= src@.take(i as int + 1));
        }
        i = i + 1;
    }
    proof {
        assert(src@.take(n as int) =~= src@);
    }
    v
}

impl Renderer {
    /// Records the start of a render pass over a render target: clears every
    /// color view and the depth view when asked, then binds the targets and
    /// the target's viewport.
    pub fn BeginRenderPass(
        commandBuffer: &mut CommandBuffer,
        renderTarget: &RenderTarget,
        clear: bool,
    )
        ensures
            final(commandBuffer).spec_recorded() == old(commandBuffer).spec_recorded()
                + spec_begin_render_pass_cmds(
                renderTarget.render_target_views@,
                renderTarget.description.ClearColor,
                renderTarget.depth_stencil_view,
                renderTarget.viewport,
                clear,
            ),
            final(commandBuffer).spec_list() == old(commandBuffer).spec_list(),
    {
        let ghost base = commandBuffer.spec_recorded();
        let ghost base_list = commandBuffer.spec_list();
        let ghost rtvs = renderTarget.render_target_views@;
        let color = renderTarget.GetClearColor();
        if clear {
            let n = renderTarget.render_target_views.len();
            let mut i: usize = 0;
            while i < n
                invariant
                    n == renderTarget.render_target_views@.len(),
                    rtvs == renderTarget.render_target_views@,
                    color == renderTarget.description.ClearColor,
                    i <= n,
                    commandBuffer.spec_recorded() == base + Seq::new(
                        i as nat,
                        |k: int| CommandV::ClearRenderTarget { view: rtvs[k], color },
                    ),
                    commandBuffer.spec_list() == base_list,
                decreases n - i,
            {
                commandBuffer.ClearRenderTarget(&renderTarget.render_target_views[i], color);
                proof {
                    assert(commandBuffer.spec_recorded() =~= base + Seq::new(
                        i as nat + 1,
                        |k: int| CommandV::ClearRenderTarget { view: rtvs[k], color },
                    ));
                }
                i = i + 1;
            }
            match renderTarget.GetDSV() {
                Some(dsv) => {
                    let d = *dsv;
                    commandBuffer.ClearDepthStencilBuffer(&d, F32_ONE_BITS, 0);
                },
                None => {},
            }
            proof {
                assert(commandBuffer.spec_recorded() =~= base + spec_clear_cmds(
                    rtvs,
                    color,
                    renderTarget.depth_stencil_view,
                ));
            }
        }
        let views = copy_views(&renderTarget.render_target_views);
        commandBuffer.SetRenderTargets(views, *renderTarget.GetDSV());
        commandBuffer.SetViewports(renderTarget.GetViewport());
        proof {
            assert(commandBuffer.spec_recorded() =~= base + spec_begin_render_pass_cmds(
                rtvs,
                color,
                renderTarget.depth_stencil_view,
                renderTarget.viewport,
                clear,
            ));
        }
    }

    /// Records the start of a pass into the presentation surface's targets,
    /// clearing them to the fixed gray.
    pub fn BeginSwapChainRenderPass(
        commandBuffer: &mut CommandBuffer,
        swapChainViews: Vec<SliceViewDesc>,
        swapChainDepth: Option<SliceViewDesc>,
        swapChainViewport: crate::render_target::Viewport,
        clear: bool,
    )
        ensures
            final(commandBuffer).spec_recorded() == old(commandBuffer).spec_recorded()
                + spec_begin_render_pass_cmds(
                swapChainViews@,
                [F32_POINT_THREE_BITS, F32_POINT_THREE_BITS, F32_POINT_THREE_BITS, F32_ONE_BITS],
                swapChainDepth,
                swapChainViewport,
                clear,
            ),
            final(commandBuffer).spec_list() == old(commandBuffer).spec_list(),
    {
        let ghost base = commandBuffer.spec_recorded();
        let ghost base_list = commandBuffer.spec_list();
        let ghost rtvs = swapChainViews@;
        let color: [u32; 4] = [
            F32_POINT_THREE_BITS,
            F32_POINT_THREE_BITS,
            F32_POINT_THREE_BITS,
            F32_ONE_BITS,
        ];
        if clear {
            let n = swapChainViews.len();
            let mut i: usize = 0;
            while i < n
                invariant
                    n == swapChainViews@.len(),
                    rtvs == swapChainViews@,
                    color == [
                        F32_POINT_THREE_BITS,
                        F32_POINT_THREE_BITS,
                        F32_POINT_THREE_BITS,
                        F32_ONE_BITS,
                    ],
                    i <= n,
                    commandBuffer.spec_recorded() == base + Seq::new(
                        i as nat,
                        |k: int| CommandV::ClearRenderTarget { view: rtvs[k], color },
                    ),
                    commandBuffer.spec_list() == base_list,
                decreases n - i,
            {
                commandBuffer.ClearRenderTarget(&swapChainViews[i], color);
                proof {
                    assert(commandBuffer.spec_recorded() =~= base + Seq::new(
                        i as nat + 1,
                        |k: int| CommandV::ClearRenderTarget { view: rtvs[k], color },
                    ));
                }
                i = i + 1;
            }
            match &swapChainDepth {
                Some(dsv) => {
                    commandBuffer.ClearDepthStencilBuffer(dsv, F32_ONE_BITS, 0);
                },
                None => {},
            }
            proof {
                assert(commandBuffer.spec_recorded() =~= base + spec_clear_cmds(
                    rtvs,
                    color,
                    swapChainDepth,
                ));
            }
        }
        commandBuffer.SetRenderTargets(swapChainViews, swapChainDepth);
        commandBuffer.SetViewports(swapChainViewport);
        proof {
            assert(commandBuffer.spec_recorded() =~= base + spec_begin_render_pass_cmds(
                rtvs,
                color,
                swapChainDepth,
                swapChainViewport,
                clear,
            ));
        }
    }

    /// Records the draw of one submesh with one material: the optional
    /// transform upload, the material's byte-buffer uploads and textures, the
    /// pipeline-state snapshot carrying the material's states, and the
    /// indexed draw of the submesh's range.
    pub fn RenderMesh(
        commandBuffer: &mut CommandBuffer,
        pipeline: &mut GraphicsPipeline,
        mesh: &Mesh,
        submeshIndex: u32,
        material: &Material,
        materialShader: &Shader,
        pipelineShader: &Shader,
        uniformBuffer: Option<TransformData>,
    )
        requires
            submeshIndex < mesh.submeshes@.len(),
            material_upload_ok(*material, *materialShader),
            uniformBuffer is Some ==> old(pipeline).shader_name@ == pipelineShader.name@
                && pipelineShader.vs_buffer_slots@.len() > 0,
        ensures
            final(commandBuffer).spec_recorded() == old(commandBuffer).spec_recorded()
                + spec_render_mesh_cmds(
                old(pipeline).shader_name@,
                mesh.vertex_buffer,
                mesh.index_buffer,
                mesh.submeshes@[submeshIndex as int].IndexCount,
                mesh.submeshes@[submeshIndex as int].IndexOffset,
                mesh.submeshes@[submeshIndex as int].VertexOffset,
                *material,
                *materialShader,
                uniformBuffer,
                old(pipeline).topology,
            ),
            final(commandBuffer).spec_list() == old(commandBuffer).spec_list(),
            *final(pipeline) == (GraphicsPipeline {
                rasterizer_state: material.rasterizer_state,
                blend_state: material.blend_state,
                depth_stencil_state: material.depth_state,
                ..*old(pipeline)
            }),
    {
        match uniformBuffer {
            Some(t) => {
                commandBuffer.SetVSConstantBufferData(
                    pipelineShader,
                    UploadPayload::Transforms(t),
                    0,
                );
            },
            None => {},
        }
        if material.GetVSUniformBuffer().len() > 0 {
            commandBuffer.SetVSMaterialConstantBufferData(
                materialShader,
                material.GetVSUniformBuffer(),
            );
        }
        if material.GetPSUniformBuffer().len() > 0 {
            commandBuffer.SetPSMaterialConstantBufferData(
                materialShader,
                material.GetPSUniformBuffer(),
            );
        }
        let textures = copy_ids(material.GetTextures());
        commandBuffer.BindMaterialTextures(textures, 0);
        pipeline.SetRasterizerState(material.GetRasterizerState());
        pipeline.SetBlendState(material.GetBlendState());
        pipeline.SetDepthStencilState(material.GetDepthState());
        commandBuffer.SetGraphicsPipelineState(pipeline);
        commandBuffer.SetVertexBuffer(mesh.GetVertexBuffer());
        commandBuffer.SetIndexBuffer(mesh.GetIndexBuffer());
        let submesh = &mesh.submeshes[submeshIndex as usize];
        commandBuffer.DrawIndexed(submesh.IndexCount, submesh.IndexOffset, submesh.VertexOffset);
        proof {
            assert(commandBuffer.spec_recorded() =~= old(commandBuffer).spec_recorded()
                + spec_render_mesh_cmds(
                old(pipeline).shader_name@,
                mesh.vertex_buffer,
                mesh.index_buffer,
                mesh.submeshes@[submeshIndex as int].IndexCount,
                mesh.submeshes@[submeshIndex as int].IndexOffset,
                mesh.submeshes@[submeshIndex as int].VertexOffset,
                *material,
                *materialShader,
                uniformBuffer,
                old(pipeline).topology,
            ));
        }
    }

    /// Records the draw of one raw index range with one material, as a
    /// frame's draw list replays it.
    pub fn RenderDraw(
        commandBuffer: &mut CommandBuffer,
        pipeline: &mut GraphicsPipeline,
        vertexBuffer: &VertexBuffer,
        indexBuffer: &IndexBuffer,
        indexCount: u32,
        indexOffset: u32,
        vertexOffset: u32,
        material: &Material,
        materialShader: &Shader,
        pipelineShader: &Shader,
        uniformBuffer: Option<TransformData>,
    )
        requires
            material_upload_ok(*material, *materialShader),
            uniformBuffer is Some ==> old(pipeline).shader_name@ == pipelineShader.name@
                && pipelineShader.vs_buffer_slots@.len() > 0,
        ensures
            final(commandBuffer).spec_recorded() == old(commandBuffer).spec_recorded()
                + spec_render_mesh_cmds(
                old(pipeline).shader_name@,
                *vertexBuffer,
                *indexBuffer,
                indexCount,
                indexOffset,
                vertexOffset,
                *material,
                *materialShader,
                uniformBuffer,
                old(pipeline).topology,
            ),
            final(commandBuffer).spec_list() == old(commandBuffer).spec_list(),
            *final(pipeline) == (GraphicsPipeline {
                rasterizer_state: material.rasterizer_state,
                blend_state: material.blend_state,
                depth_stencil_state: material.depth_state,
                ..*old(pipeline)
            }),
    {
        match uniformBuffer {
            Some(t) => {
                commandBuffer.SetVSConstantBufferData(
                    pipelineShader,
                    UploadPayload::Transforms(t),
                    0,
                );
            },
            None => {},
        }
        if material.GetVSUniformBuffer().len() > 0 {
            commandBuffer.SetVSMaterialConstantBufferData(
                materialShader,
                material.GetVSUniformBuffer(),
            );
        }
        if material.GetPSUniformBuffer().len() > 0 {
            commandBuffer.SetPSMaterialConstantBufferData(
                materialShader,
                material.GetPSUniformBuffer(),
            );
        }
        let textures = copy_ids(material.GetTextures());
        commandBuffer.BindMaterialTextures(textures, 0);
        pipeline.SetRasterizerState(material.GetRasterizerState());
        pipeline.SetBlendState(material.GetBlendState());
        pipeline.SetDepthStencilState(material.GetDepthState());
        commandBuffer.SetGraphicsPipelineState(pipeline);
        commandBuffer.SetVertexBuffer(vertexBuffer);
        commandBuffer.SetIndexBuffer(indexBuffer);
        commandBuffer.DrawIndexed(indexCount, indexOffset, vertexOffset);
        proof {
            assert(commandBuffer.spec_recorded() =~= old(commandBuffer).spec_recorded()
                + spec_render_mesh_cmds(
                old(pipeline).shader_name@,
                *vertexBuffer,
                *indexBuffer,
                indexCount,
                indexOffset,
                vertexOffset,
                *material,
                *materialShader,
                uniformBuffer,
                old(pipeline).topology,
            ));
        }
    }

    /// Records the draw of the shared fullscreen quad with one material.
    pub fn RenderFullscreenQuad(
        &self,
        commandBuffer: &mut CommandBuffer,
        pipeline: &mut GraphicsPipeline,
        material: &Material,
        materialShader: &Shader,
    )
        requires
            material_upload_ok(*material, *materialShader),
        ensures
            final(commandBuffer).spec_recorded() == old(commandBuffer).spec_recorded()
                + spec_render_mesh_cmds(
                old(pipeline).shader_name@,
                self.data.FullscreenQuadVB,
                self.data.FullscreenQuadIB,
                self.data.FullscreenQuadIB.index_count,
                0,
                0,
                *material,
                *materialShader,
                None,
                old(pipeline).topology,
            ),
            final(commandBuffer).spec_list() == old(commandBuffer).spec_list(),
            *final(pipeline) == (GraphicsPipeline {
                rasterizer_state: material.rasterizer_state,
                blend_state: material.blend_state,
                depth_stencil_state: material.depth_state,
                ..*old(pipeline)
            }),
    {
        if material.GetVSUniformBuffer().len() > 0 {
            commandBuffer.SetVSMaterialConstantBufferData(
                materialShader,
                material.GetVSUniformBuffer(),
            );
        }
        if material.GetPSUniformBuffer().len() > 0 {
            commandBuffer.SetPSMaterialConstantBufferData(
                materialShader,
                material.GetPSUniformBuffer(),
            );
        }
        let textures = copy_ids(material.GetTextures());
        commandBuffer.BindMaterialTextures(textures, 0);
        pipeline.SetRasterizerState(material.GetRasterizerState());
        pipeline.SetBlendState(material.GetBlendState());
        pipeline.SetDepthStencilState(material.GetDepthState());
        commandBuffer.SetGraphicsPipelineState(pipeline);
        commandBuffer.SetVertexBuffer(&self.data.FullscreenQuadVB);
        commandBuffer.SetIndexBuffer(&self.data.FullscreenQuadIB);
        commandBuffer.DrawIndexed(self.data.FullscreenQuadIB.GetIndexCount(), 0, 0);
        proof {
            assert(commandBuffer.spec_recorded() =~= old(commandBuffer).spec_recorded()
                + spec_render_mesh_cmds(
                old(pipeline).shader_name@,
                self.data.FullscreenQuadVB,
                self.data.FullscreenQuadIB,
                self.data.FullscreenQuadIB.index_count,
                0,
                0,
                *material,
                *materialShader,
                None,
                old(pipeline).topology,
            ));
        }
    }
}

} // verus!
