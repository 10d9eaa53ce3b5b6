//! The scene renderer: collects draw commands for a frame, partitions them
//! so transparent draws follow opaque ones, and records the fixed pass
//! sequence — geometry (skybox, scene, grid), tone-mapping composite, and
//! optionally a blit to the presentation surface — into one command buffer
//! that a flush seals and hands back for submission.

use vstd::prelude::*;
use vstd::pervasive::unreached;
use crate::states::MaterialFlags;
use crate::texture::{
    Texture, TextureDescription, SamplerDescription, ResourceIds, BindFlags, TextureFormat,
    TextureWrap, TextureFilter, SliceViewDesc,
};
use crate::render_target::{
    RenderTarget, RenderTargetDescription, RenderTargetAttachment, Viewport,
    spec_color_attachments,
};
use crate::buffers::{
    VertexBuffer, IndexBuffer, VertexBufferDescription, IndexBufferDescription, BufferUsage,
    IndexFormat,
};
use crate::command::{
    CommandBuffer, Command, CommandV, UploadPayload, UploadPayloadV, TransformData, Mat4Bits,
    mat4_to_le_bytes, spec_mat4_le_bytes, transpose_mat4, spec_transpose,
};
use crate::pipeline::{
    GraphicsPipeline, GraphicsPipelineDescription, InputElementDesc, PrimitiveTopology,
};
use crate::shader::Shader;
use crate::shader_library::{ShaderLibrary, spec_find_shader, lemma_find_shader_name};
use crate::material::{Material, MaterialError, spec_write_bytes};
use crate::shader_uniform::spec_find_uniform;
use crate::shader_resource::spec_find_resource;
use crate::mesh::{Mesh, Submesh};
use crate::environment::{Environment, F32_ONE_BITS};
use crate::renderer::{
    Renderer, material_upload_ok, spec_begin_render_pass_cmds, spec_render_mesh_cmds,
    F32_POINT_THREE_BITS,
};

verus! {

/// The identity matrix as bit patterns.
pub open spec fn spec_mat4_identity() -> Mat4Bits {
    Mat4Bits {
        m: [
            F32_ONE_BITS,
            0u32,
            0u32,
            0u32,
            0u32,
            F32_ONE_BITS,
            0u32,
            0u32,
            0u32,
            0u32,
            F32_ONE_BITS,
            0u32,
            0u32,
            0u32,
            0u32,
            F32_ONE_BITS,
        ],
    }
}

/// The identity matrix as bit patterns.
pub fn mat4_identity() -> (r: Mat4Bits)
    ensures
        r == spec_mat4_identity(),
{
    Mat4Bits {
        m: [
            F32_ONE_BITS,
            0,
            0,
            0,
            0,
            F32_ONE_BITS,
            0,
            0,
            0,
            0,
            F32_ONE_BITS,
            0,
            0,
            0,
            0,
            F32_ONE_BITS,
        ],
    }
}

/// What a camera hands the renderer each frame: view and projection
/// matrices, the inverse view-projection for the skybox, and the camera
/// position, all as bit patterns.
#[derive(Clone, Copy, Debug, PartialEq)]
pub struct CameraData {
    pub view: Mat4Bits,
    pub projection: Mat4Bits,
    pub inv_view_projection: Mat4Bits,
    pub position: [u32; 3],
}

/// One frame draw: a submesh range, its transform, and the index of its
/// material in the frame's material table.
#[derive(Clone, Copy, Debug, PartialEq)]
pub struct DrawCommand {
    pub vertex_buffer: VertexBuffer,
    pub index_buffer: IndexBuffer,
    pub index_count: u32,
    pub index_offset: u32,
    pub vertex_offset: u32,
    pub transform: Mat4Bits,
    pub material: usize,
}

/// Whether a draw's material has the transparent flag.
pub open spec fn spec_cmd_transparent(materials: Seq<Material>, c: DrawCommand) -> bool {
    materials[c.material as int].flags.transparent
}

/// The opaque draws of a list, in order.
pub open spec fn spec_opaque_draws(l: Seq<DrawCommand>, materials: Seq<Material>) -> Seq<
    DrawCommand,
> {
    l.filter(|c: DrawCommand| !spec_cmd_transparent(materials, c))
}

/// The transparent draws of a list, in order.
pub open spec fn spec_transparent_draws(l: Seq<DrawCommand>, materials: Seq<Material>) -> Seq<
    DrawCommand,
> {
    l.filter(|c: DrawCommand| spec_cmd_transparent(materials, c))
}

/// The draw command submitting submesh `i` of a mesh appends: the override
/// material when one is supplied and set, else the mesh's own material for
/// that submesh slot.
pub open spec fn spec_draw_for(
    mesh: Mesh,
    transform: Mat4Bits,
    overrides: Seq<Option<usize>>,
    i: int,
) -> DrawCommand {
    DrawCommand {
        vertex_buffer: mesh.vertex_buffer,
        index_buffer: mesh.index_buffer,
        index_count: mesh.submeshes@[i].IndexCount,
        index_offset: mesh.submeshes@[i].IndexOffset,
        vertex_offset: mesh.submeshes@[i].VertexOffset,
        transform,
        material: if i < overrides.len() && overrides[i] is Some {
            overrides[i]->Some_0
        } else {
            mesh.materials@[mesh.submeshes@[i].MaterialIndex as int]
        },
    }
}

/// A material whose shader the library holds, with the register facts its
/// buffer uploads need.
pub open spec fn material_ok_in(m: Material, lib: ShaderLibrary) -> bool {
    &&& spec_find_shader(lib.shaders@, m.shader_name@) matches Some(sh) && material_upload_ok(
        m,
        sh,
    )
}

/// The multi-pass scene renderer.
pub struct SceneRenderer {
    pub command_buffer: CommandBuffer,
    pub transform_data: TransformData,
    pub inv_view_proj: Mat4Bits,
    pub swap_chain_target: bool,
    pub draw_list: Vec<DrawCommand>,
    pub geometry_pipeline: GraphicsPipeline,
    pub grid_pipeline: GraphicsPipeline,
    pub composite_pipeline: GraphicsPipeline,
    pub fullscreen_quad_pipeline: GraphicsPipeline,
    pub skybox_pipeline: GraphicsPipeline,
    pub geometry_target: RenderTarget,
    pub composite_target: RenderTarget,
    pub grid_mesh: Mesh,
    pub grid_material: Material,
    pub composite_material: Material,
    pub fullscreen_quad_material: Material,
    pub skybox_material: Material,
    pub exposure_bits: u32,
}

/// One vertex input element appended after the previous one.
fn input_element(name: &str, format: TextureFormat) -> (r: InputElementDesc)
    ensures
        r.semantic_name@ == name@,
        r.format == format,
        r.semantic_index == 0,
        r.input_slot == 0,
        r.aligned_byte_offset is None,
        r.instance_data_step_rate == 0,
{
    InputElementDesc {
        semantic_name: name.to_owned(),
        semantic_index: 0,
        format,
        input_slot: 0,
        aligned_byte_offset: None,
        instance_data_step_rate: 0,
    }
}

/// The vertex layout of mesh geometry: position, texture coordinates,
/// normal, tangent and bitangent.
fn mesh_input_layout() -> (r: Vec<InputElementDesc>)
    ensures
        r@.len() == 5,
{
    let mut v: Vec<InputElementDesc> = Vec::new();
    v.push(input_element("POSITION", TextureFormat::R32G32B32A32Float));
    v.push(input_element("TEX_COORD", TextureFormat::R16G16Float));
    v.push(input_element("NORMAL", TextureFormat::R32G32B32A32Float));
    v.push(input_element("TANGENT", TextureFormat::R32G32B32A32Float));
    v.push(input_element("BITANGENT", TextureFormat::R32G32B32A32Float));
    v
}

/// The vertex layout of fullscreen-quad geometry: position and texture
/// coordinates.
fn quad_input_layout() -> (r: Vec<InputElementDesc>)
    ensures
        r@.len() == 2,
{
    let mut v: Vec<InputElementDesc> = Vec::new();
    v.push(input_element("POSITION", TextureFormat::R32G32B32A32Float));
    v.push(input_element("TEX_COORD", TextureFormat::R16G16Float));
    v
}

impl SceneRenderer {
    /// Both render targets match their descriptions, the geometry target
    /// carries one color and one depth attachment, the composite target one
    /// color attachment, and the grid mesh has its one submesh.
    pub open spec fn wf(self) -> bool {
        &&& self.geometry_target.wf()
        &&& spec_color_attachments(self.geometry_target.description.Attachments@).len() == 1
        &&& self.composite_target.wf()
        &&& spec_color_attachments(self.composite_target.description.Attachments@).len() == 1
        &&& self.grid_mesh.submeshes@.len() == 1
        &&& self.grid_material.wf()
        &&& self.composite_material.wf()
        &&& self.fullscreen_quad_material.wf()
        &&& self.skybox_material.wf()
    }

    /// Builds the scene renderer: the geometry and composite render targets
    /// at the default resolution, the five pass pipelines over the library's
    /// shaders, the grid plane with its texture, and the skybox, composite
    /// and presentation materials.
    pub fn Create(
        swapChainTarget: bool,
        library: &ShaderLibrary,
        renderer: &Renderer,
        ids: &mut ResourceIds,
    ) -> (r: SceneRenderer)
        requires
            library.wf(),
            spec_find_shader(library.shaders@, "mesh_pbr_shader"@) is Some,
            spec_find_shader(library.shaders@, "grid_shader"@) is Some,
            spec_find_shader(library.shaders@, "composite_shader"@) is Some,
            spec_find_shader(library.shaders@, "fullscreen_quad_shader"@) is Some,
            spec_find_shader(library.shaders@, "skybox_shader"@) is Some,
            old(ids).next + 6 <= u64::MAX,
        ensures
            r.wf(),
            r.swap_chain_target == swapChainTarget,
            r.draw_list@.len() == 0,
            r.exposure_bits == F32_POINT_THREE_BITS,
            r.command_buffer.spec_recorded() == Seq::<CommandV>::empty(),
            r.command_buffer.spec_list() is None,
            r.transform_data.model == spec_mat4_identity(),
            r.transform_data.view == spec_mat4_identity(),
            r.transform_data.projection == spec_mat4_identity(),
            r.geometry_target.description.Width == 1280,
            r.geometry_target.description.Height == 720,
            r.geometry_target.description.ClearColor == [
                0x3DCCCCCDu32,
                0x3E4CCCCDu32,
                F32_POINT_THREE_BITS,
                F32_ONE_BITS,
            ],
            r.geometry_target.description.Attachments@.len() == 2,
            r.geometry_target.description.Attachments@[0].Format
                == TextureFormat::R16G16B16A16Float,
            r.geometry_target.description.Attachments@[1].Format == TextureFormat::D24UnormS8Uint,
            r.composite_target.description.Width == 1280,
            r.composite_target.description.Height == 720,
            r.composite_target.description.ClearColor == [
                0x3DCCCCCDu32,
                0x3E4CCCCDu32,
                F32_POINT_THREE_BITS,
                F32_ONE_BITS,
            ],
            r.composite_target.description.Attachments@.len() == 1,
            r.composite_target.description.Attachments@[0].Format == TextureFormat::R8G8B8A8Unorm,
            r.geometry_pipeline.shader_name@ == "mesh_pbr_shader"@,
            r.grid_pipeline.shader_name@ == "grid_shader"@,
            r.composite_pipeline.shader_name@ == "composite_shader"@,
            r.fullscreen_quad_pipeline.shader_name@ == "fullscreen_quad_shader"@,
            r.skybox_pipeline.shader_name@ == "skybox_shader"@,
            r.geometry_pipeline.topology == PrimitiveTopology::TriangleList,
            r.grid_pipeline.topology == PrimitiveTopology::TriangleList,
            r.composite_pipeline.topology == PrimitiveTopology::TriangleList,
            r.fullscreen_quad_pipeline.topology == PrimitiveTopology::TriangleList,
            r.skybox_pipeline.topology == PrimitiveTopology::TriangleList,
            r.grid_material.shader_name@ == "grid_shader"@,
            r.grid_material.flags == (MaterialFlags {
                two_sided: true,
                disable_depth_test: false,
                wireframe: false,
                transparent: true,
            }),
            material_ok_in(r.grid_material, *library),
            r.composite_material.shader_name@ == "composite_shader"@,
            r.composite_material.flags == (MaterialFlags {
                two_sided: false,
                disable_depth_test: true,
                wireframe: false,
                transparent: false,
            }),
            material_ok_in(r.composite_material, *library),
            r.fullscreen_quad_material.shader_name@ == "fullscreen_quad_shader"@,
            r.fullscreen_quad_material.flags == (MaterialFlags {
                two_sided: false,
                disable_depth_test: false,
                wireframe: false,
                transparent: false,
            }),
            material_ok_in(r.fullscreen_quad_material, *library),
            r.skybox_material.shader_name@ == "skybox_shader"@,
            r.skybox_material.flags == (MaterialFlags {
                two_sided: false,
                disable_depth_test: true,
                wireframe: false,
                transparent: false,
            }),
            material_ok_in(r.skybox_material, *library),
    {
        let command_buffer = CommandBuffer::Create();

        let geometry_color = RenderTargetAttachment {
            Format: TextureFormat::R16G16B16A16Float,
            MipCount: 1,
            Wrap: TextureWrap::Wrap,
            Filter: TextureFilter::Anisotropic,
        };
        let geometry_depth = RenderTargetAttachment {
            Format: TextureFormat::D24UnormS8Uint,
            MipCount: 1,
            Wrap: TextureWrap::Wrap,
            Filter: TextureFilter::Anisotropic,
        };
        let geometry_target = RenderTarget::Create(
            RenderTargetDescription {
                Width: 1280,
                Height: 720,
                ClearColor: [0x3DCCCCCD, 0x3E4CCCCD, F32_POINT_THREE_BITS, F32_ONE_BITS],
                Attachments: two_attachments(geometry_color, geometry_depth),
            },
            ids,
        );
        let composite_color = RenderTargetAttachment {
            Format: TextureFormat::R8G8B8A8Unorm,
            MipCount: 1,
            Wrap: TextureWrap::Wrap,
            Filter: TextureFilter::Anisotropic,
        };
        let composite_target = RenderTarget::Create(
            RenderTargetDescription {
                Width: 1280,
                Height: 720,
                ClearColor: [0x3DCCCCCD, 0x3E4CCCCD, F32_POINT_THREE_BITS, F32_ONE_BITS],
                Attachments: one_attachment(composite_color),
            },
            ids,
        );
        proof {
            reveal_with_fuel(Seq::filter, 3);
            let g_atts = geometry_target.description.Attachments@;
            assert(g_atts =~= seq![geometry_color, geometry_depth]);
            assert(g_atts.drop_last() =~= seq![geometry_color]);
            assert(seq![geometry_color].drop_last() =~= Seq::<RenderTargetAttachment>::empty());
            assert(spec_color_attachments(g_atts) =~= seq![geometry_color]);
            let c_atts = composite_target.description.Attachments@;
            assert(c_atts =~= seq![composite_color]);
            assert(c_atts.drop_last() =~= Seq::<RenderTargetAttachment>::empty());
            assert(spec_color_attachments(c_atts) =~= seq![composite_color]);
        }

        let geometry_pipeline = GraphicsPipeline::Create(
            GraphicsPipelineDescription {
                RasterizerStateDesc: default_rasterizer(),
                BlendStateDesc: default_blend(),
                DepthStencilStateDesc: default_depth(),
                ShaderName: String::from_str("mesh_pbr_shader"),
                InputLayoutDesc: mesh_input_layout(),
                Topology: PrimitiveTopology::TriangleList,
            },
        );
        let grid_pipeline = GraphicsPipeline::Create(
            GraphicsPipelineDescription {
                RasterizerStateDesc: default_rasterizer(),
                BlendStateDesc: default_blend(),
                DepthStencilStateDesc: default_depth(),
                ShaderName: String::from_str("grid_shader"),
                InputLayoutDesc: mesh_input_layout(),
                Topology: PrimitiveTopology::TriangleList,
            },
        );
        let composite_pipeline = GraphicsPipeline::Create(
            GraphicsPipelineDescription {
                RasterizerStateDesc: default_rasterizer(),
                BlendStateDesc: default_blend(),
                DepthStencilStateDesc: default_depth(),
                ShaderName: String::from_str("composite_shader"),
                InputLayoutDesc: quad_input_layout(),
                Topology: PrimitiveTopology::TriangleList,
            },
        );
        let fullscreen_quad_pipeline = GraphicsPipeline::Create(
            GraphicsPipelineDescription {
                RasterizerStateDesc: default_rasterizer(),
                BlendStateDesc: default_blend(),
                DepthStencilStateDesc: default_depth(),
                ShaderName: String::from_str("fullscreen_quad_shader"),
                InputLayoutDesc: quad_input_layout(),
                Topology: PrimitiveTopology::TriangleList,
            },
        );
        let skybox_pipeline = GraphicsPipeline::Create(
            GraphicsPipelineDescription {
                RasterizerStateDesc: default_rasterizer(),
                BlendStateDesc: default_blend(),
                DepthStencilStateDesc: default_depth(),
                ShaderName: String::from_str("skybox_shader"),
                InputLayoutDesc: quad_input_layout(),
                Topology: PrimitiveTopology::TriangleList,
            },
        );

        // Grid plane: four vertices, six indices, one submesh.
        let grid_vb = VertexBuffer::Create(
            &VertexBufferDescription {
                VertexCount: 4,
                Stride: 56,
                Size: 224,
                Usage: BufferUsage::Default,
            },
            ids,
        );
        let grid_ib = IndexBuffer::Create(
            &IndexBufferDescription {
                IndexCount: 6,
                Size: 24,
                Format: IndexFormat::R32Uint,
                Usage: BufferUsage::Default,
            },
            ids,
        );
        let mut grid_submeshes: Vec<Submesh> = Vec::new();
        grid_submeshes.push(
            Submesh {
                Name: String::from_str("Plane"),
                VertexOffset: 0,
                VertexCount: 4,
                IndexOffset: 0,
                IndexCount: 6,
                MaterialIndex: 0,
            },
        );
        let grid_mesh = Mesh::Create("Grid", grid_vb, grid_ib, grid_submeshes, Vec::new());

        let mut grid_dims: Vec<Option<crate::texture::ImageDims>> = Vec::new();
        grid_dims.push(None);
        let grid_texture = Texture::CreateTexture2D(
            &TextureDescription {
                name: String::from_str("GridTexture"),
                format: TextureFormat::R8G8B8A8Unorm,
                width: 0,
                height: 0,
                mip_count: 7,
                bind_flags: BindFlags {
                    shader_resource: true,
                    render_target: false,
                    depth_stencil: false,
                    unordered_access: false,
                },
                image_dims: grid_dims,
            },
            &SamplerDescription { wrap: TextureWrap::Mirror, filter: TextureFilter::Anisotropic },
            ids,
        );

        let default_texture = renderer.GetBlackTexture().GetId();

        let grid_shader = match library.GetShader("grid_shader") {
            Some(s) => s,
            None => unreached(),
        };
        proof {
            crate::shader_library::lemma_find_shader_wf(library.shaders@, "grid_shader"@);
        }
        let mut grid_material = Material::Create(
            "Grid",
            grid_shader,
            MaterialFlags {
                two_sided: true,
                disable_depth_test: false,
                wireframe: false,
                transparent: true,
            },
            default_texture,
        );
        let _ = grid_material.SetTexture("u_GridTexture", grid_texture.GetId());

        let composite_shader = match library.GetShader("composite_shader") {
            Some(s) => s,
            None => unreached(),
        };
        proof {
            crate::shader_library::lemma_find_shader_wf(library.shaders@, "composite_shader"@);
        }
        let composite_material = Material::Create(
            "CompositeMaterial",
            composite_shader,
            MaterialFlags {
                two_sided: false,
                disable_depth_test: true,
                wireframe: false,
                transparent: false,
            },
            default_texture,
        );

        let fullscreen_quad_shader = match library.GetShader("fullscreen_quad_shader") {
            Some(s) => s,
            None => unreached(),
        };
        proof {
            crate::shader_library::lemma_find_shader_wf(library.shaders@, "fullscreen_quad_shader"@);
        }
        let fullscreen_quad_material = Material::Create(
            "FullScreenQuad",
            fullscreen_quad_shader,
            MaterialFlags {
                two_sided: false,
                disable_depth_test: false,
                wireframe: false,
                transparent: false,
            },
            default_texture,
        );

        let skybox_shader = match library.GetShader("skybox_shader") {
            Some(s) => s,
            None => unreached(),
        };
        proof {
            crate::shader_library::lemma_find_shader_wf(library.shaders@, "skybox_shader"@);
        }
        let mut skybox_material = Material::Create(
            "SkyBoxMaterial",
            skybox_shader,
            MaterialFlags {
                two_sided: false,
                disable_depth_test: true,
                wireframe: false,
                transparent: false,
            },
            default_texture,
        );
        let _ = skybox_material.SetTexture(
            "u_EnvironmentMap",
            renderer.GetBlackTextureCube().GetId(),
        );

        proof {
            crate::shader::lemma_material_register_in_slots(*grid_shader);
            crate::shader::lemma_material_register_in_slots(*composite_shader);
            crate::shader::lemma_material_register_in_slots(*fullscreen_quad_shader);
            crate::shader::lemma_material_register_in_slots(*skybox_shader);
            lemma_find_shader_name(library.shaders@, "grid_shader"@);
            lemma_find_shader_name(library.shaders@, "composite_shader"@);
            lemma_find_shader_name(library.shaders@, "fullscreen_quad_shader"@);
            lemma_find_shader_name(library.shaders@, "skybox_shader"@);
        }

        SceneRenderer {
            command_buffer,
            transform_data: TransformData {
                projection: mat4_identity(),
                view: mat4_identity(),
                model: mat4_identity(),
                camera_position: [0, 0, 0],
            },
            inv_view_proj: mat4_identity(),
            swap_chain_target: swapChainTarget,
            draw_list: Vec::new(),
            geometry_pipeline,
            grid_pipeline,
            composite_pipeline,
            fullscreen_quad_pipeline,
            skybox_pipeline,
            geometry_target,
            composite_target,
            grid_mesh,
            grid_material,
            composite_material,
            fullscreen_quad_material,
            skybox_material,
            exposure_bits: F32_POINT_THREE_BITS,
        }
    }

    /// Appends one draw command per submesh of the mesh, resolving each
    /// submesh's material to the supplied override when one is present, else
    /// to the mesh's own material for that slot.
    pub fn SubmitMesh(&mut self, mesh: &Mesh, transform: Mat4Bits, materials: &Vec<Option<usize>>)
        requires
            forall|i: int|
                0 <= i < mesh.submeshes@.len() ==> (#[trigger] mesh.submeshes@[i]).MaterialIndex
                    < mesh.materials@.len(),
        ensures
            final(self).draw_list@ == old(self).draw_list@ + Seq::new(
                mesh.submeshes@.len(),
                |i: int| spec_draw_for(*mesh, transform, materials@, i),
            ),
            *final(self) == (SceneRenderer { draw_list: final(self).draw_list, ..*old(self) }),
    {
        let n = mesh.submeshes.len();
        let mut new_draws: Vec<DrawCommand> = Vec::new();
        let mut i: usize = 0;
        while i < n
            invariant
                n == mesh.submeshes@.len(),
                forall|k: int|
                    0 <= k < mesh.submeshes@.len() ==> (
                    #[trigger] mesh.submeshes@[k]).MaterialIndex < mesh.materials@.len(),
                i <= n,
                new_draws@ == Seq::new(
                    i as nat,
                    |k: int| spec_draw_for(*mesh, transform, materials@, k),
                ),
            decreases n - i,
        {
            let material: usize = if i < materials.len() && materials[i].is_some() {
                materials[i].unwrap()
            } else {
                mesh.materials[mesh.submeshes[i].MaterialIndex as usize]
            };
            let submesh = &mesh.submeshes[i];
            new_draws.push(
                DrawCommand {
                    vertex_buffer: *mesh.GetVertexBuffer(),
                    index_buffer: *mesh.GetIndexBuffer(),
                    index_count: submesh.IndexCount,
                    index_offset: submesh.IndexOffset,
                    vertex_offset: submesh.VertexOffset,
                    transform,
                    material,
                },
            );
            proof {
                assert(new_draws@ =~= Seq::new(
                    i as nat + 1,
                    |k: int| spec_draw_for(*mesh, transform, materials@, k),
                ));
            }
            i = i + 1;
        }
        let mut k: usize = 0;
        let m = new_draws.len();
        let ghost base = self.draw_list@;
        while k < m
            invariant
                m == new_draws@.len(),
                k <= m,
                base == old(self).draw_list@,
                self.draw_list@ == base + new_draws@.take(k as int),
                new_draws@ == Seq::new(
                    m as nat,
                    |j: int| spec_draw_for(*mesh, transform, materials@, j),
                ),
                *self == (SceneRenderer { draw_list: self.draw_list, ..*old(self) }),
            decreases m - k,
        {
            self.draw_list.push(new_draws[k]);
            proof {
                assert(self.draw_list@ =~= base + new_draws@.take(k as int + 1));
            }
            k = k + 1;
        }
        proof {
            assert(new_draws@.take(m as int) =~= new_draws@);
        }
    }

    /// Stable transparency partition: reorders the draw list so every opaque
    /// draw precedes every transparent one, keeping the submission order
    /// inside each group.
    pub fn PreRender(&mut self, materials: &Vec<Material>)
        requires
            forall|k: int|
                0 <= k < old(self).draw_list@.len() ==> (
                #[trigger] old(self).draw_list@[k]).material < materials@.len(),
        ensures
            final(self).draw_list@ == spec_opaque_draws(old(self).draw_list@, materials@)
                + spec_transparent_draws(old(self).draw_list@, materials@),
            *final(self) == (SceneRenderer { draw_list: final(self).draw_list, ..*old(self) }),
    {
        let ghost l = self.draw_list@;
        let n = self.draw_list.len();
        let mut opaque: Vec<DrawCommand> = Vec::new();
        let mut transparent: Vec<DrawCommand> = Vec::new();
        let mut i: usize = 0;
        proof {
            assert(l.take(0) =~= Seq::<DrawCommand>::empty());
            assert(spec_opaque_draws(l.take(0), materials@) =~= Seq::<DrawCommand>::empty());
            assert(spec_transparent_draws(l.take(0), materials@) =~= Seq::<DrawCommand>::empty());
        }
        while i < n
            invariant
                n == self.draw_list@.len(),
                l == self.draw_list@,
                forall|k: int|
                    0 <= k < l.len() ==> (#[trigger] l[k]).material < materials@.len(),
                i <= n,
                opaque@ == spec_opaque_draws(l.take(i as int), materials@),
                transparent@ == spec_transparent_draws(l.take(i as int), materials@),
                *self == *old(self),
            decreases n - i,
        {
            proof {
                reveal_with_fuel(Seq::filter, 2);
                assert(l.take(i as int + 1).drop_last() =~= l.take(i as int));
                assert(l.take(i as int + 1).last() == l[i as int]);
            }
            let c = self.draw_list[i];
            if materials[c.material].IsTransparent() {
                transparent.push(c);
            } else {
                opaque.push(c);
            }
            i = i + 1;
        }
        proof {
            assert(l.take(n as int) =~= l);
        }
        let m = transparent.len();
        let mut k: usize = 0;
        while k < m
            invariant
                m == transparent@.len(),
                k <= m,
                opaque@ == spec_opaque_draws(l, materials@) + transparent@.take(k as int),
                transparent@ == spec_transparent_draws(l, materials@),
                *self == *old(self),
                l == old(self).draw_list@,
            decreases m - k,
        {
            opaque.push(transparent[k]);
            proof {
                assert(opaque@ =~= spec_opaque_draws(l, materials@) + transparent@.take(
                    k as int + 1,
                ));
            }
            k = k + 1;
        }
        proof {
            assert(transparent@.take(m as int) =~= transparent@);
        }
        self.draw_list = opaque;
    }
}

/// Transparency-partition law: after the stable partition, no transparent
/// draw precedes an opaque one anywhere in the list.
pub proof fn lemma_transparency_partition(
    before: Seq<DrawCommand>,
    materials: Seq<Material>,
    after: Seq<DrawCommand>,
    i: int,
    j: int,
)
    requires
        after == spec_opaque_draws(before, materials) + spec_transparent_draws(before, materials),
        0 <= i < j < after.len(),
        spec_cmd_transparent(materials, after[i]),
    ensures
        spec_cmd_transparent(materials, after[j]),
{
    let op = spec_opaque_draws(before, materials);
    let tr = spec_transparent_draws(before, materials);
    if i < op.len() {
        before.lemma_filter_pred(|c: DrawCommand| !spec_cmd_transparent(materials, c), i);
        assert(false);
    }
    assert(after[j] == tr[j - op.len()]);
    before.lemma_filter_pred(|c: DrawCommand| spec_cmd_transparent(materials, c), j - op.len());
}

/// Pre-pass defaults for pipeline construction; the scene renderer
/// overwrites these with each material's states before every draw.
fn default_rasterizer() -> (r: crate::states::RasterizerDesc)
    ensures
        r == crate::states::spec_rasterizer_for(
            MaterialFlags {
                two_sided: false,
                disable_depth_test: false,
                wireframe: false,
                transparent: false,
            },
        ),
{
    crate::states::RasterizerDesc {
        cull_mode: crate::states::CullMode::Back,
        fill_mode: crate::states::FillMode::Solid,
        front_counter_clockwise: true,
        depth_clip_enable: true,
        antialiased_line_enable: false,
        multisample_enable: false,
        scissor_enable: false,
        depth_bias: 0,
    }
}

fn default_blend() -> (r: crate::states::BlendDesc)
    ensures
        r == crate::states::spec_blend_for(
            MaterialFlags {
                two_sided: false,
                disable_depth_test: false,
                wireframe: false,
                transparent: false,
            },
        ),
{
    crate::states::BlendDesc {
        alpha_to_coverage: false,
        independent_blend: false,
        blend_enable: false,
        src_blend: crate::states::BlendFactor::One,
        dest_blend: crate::states::BlendFactor::Zero,
        blend_op: crate::states::BlendOp::Add,
        src_blend_alpha: crate::states::BlendFactor::One,
        dest_blend_alpha: crate::states::BlendFactor::Zero,
        blend_op_alpha: crate::states::BlendOp::Add,
        write_mask_all: true,
    }
}

fn default_depth() -> (r: crate::states::DepthStencilDesc)
    ensures
        r == crate::states::spec_depth_for(
            MaterialFlags {
                two_sided: false,
                disable_depth_test: false,
                wireframe: false,
                transparent: false,
            },
        ),
{
    let face = crate::states::StencilFaceDesc {
        stencil_func: crate::states::ComparisonFunc::Always,
        stencil_fail_op: crate::states::StencilOp::Keep,
        stencil_pass_op: crate::states::StencilOp::IncrSat,
        stencil_depth_fail_op: crate::states::StencilOp::Keep,
    };
    crate::states::DepthStencilDesc {
        depth_enable: true,
        depth_func: crate::states::ComparisonFunc::LessEqual,
        depth_write_mask: crate::states::DepthWriteMask::All,
        stencil_enable: true,
        stencil_read_mask: 0xff,
        stencil_write_mask: 0xff,
        front_face: face,
        back_face: face,
    }
}

/// A pair of render-target attachments.
fn two_attachments(a: RenderTargetAttachment, b: RenderTargetAttachment) -> (r: Vec<
    RenderTargetAttachment,
>)
    ensures
        r@.len() == 2,
        r@[0] == a,
        r@[1] == b,
        forall|i: int| 0 <= i < r@.len() ==> (#[trigger] r@[i]) == a || r@[i] == b,
{
    let mut v: Vec<RenderTargetAttachment> = Vec::new();
    v.push(a);
    v.push(b);
    v
}

/// A single render-target attachment.
fn one_attachment(a: RenderTargetAttachment) -> (r: Vec<RenderTargetAttachment>)
    ensures
        r@.len() == 1,
        r@[0] == a,
{
    let mut v: Vec<RenderTargetAttachment> = Vec::new();
    v.push(a);
    v
}


/// The commands binding a frame's environment: the light-array upload and
/// the environment, irradiance and BRDF maps on their fixed registers.
pub open spec fn spec_begin_scene_cmds(environment: Environment, renderer: Renderer) -> Seq<
    CommandV,
> {
    let env = environment.environment_map;
    let irr = environment.irradiance_map;
    let brdf = renderer.data.BRDFTexture;
    seq![
        CommandV::UploadPSConstantBuffer {
            register: 0,
            payload: UploadPayloadV::Lights(environment.lights@),
        },
        CommandV::SetPSShaderResources {
            start_slot: 4,
            views: seq![Some(spec_srv_of(env))],
        },
        CommandV::SetPSSamplers { start_slot: 4, samplers: seq![Some(spec_sampler_of(env))] },
        CommandV::SetPSShaderResources {
            start_slot: 5,
            views: seq![Some(spec_srv_of(irr))],
        },
        CommandV::SetPSSamplers { start_slot: 5, samplers: seq![Some(spec_sampler_of(irr))] },
        CommandV::SetPSShaderResources {
            start_slot: 6,
            views: seq![Some(spec_srv_of(brdf))],
        },
        CommandV::SetPSSamplers { start_slot: 6, samplers: seq![Some(spec_sampler_of(brdf))] },
    ]
}

/// The shader-resource view a texture's whole mip chain yields.
pub open spec fn spec_srv_of(t: Texture) -> crate::texture::SrvDesc {
    crate::texture::SrvDesc {
        texture: t.id,
        format: crate::texture::spec_srv_format(t.storage_format),
        is_cube: t.is_cubemap,
        most_detailed_mip: 0,
        mip_levels: t.mip_count,
    }
}

/// The sampler state a texture was created with.
pub open spec fn spec_sampler_of(t: Texture) -> crate::texture::SamplerInfo {
    crate::texture::SamplerInfo {
        wrap: t.wrap,
        filter: t.filter,
        max_anisotropy: t.max_anisotropy,
    }
}

/// The commands replaying a draw list in order: each draw uploads its own
/// model matrix over the frame's camera block and renders with its
/// material's shader and states.
pub open spec fn spec_draws_cmds(
    draws: Seq<DrawCommand>,
    materials: Seq<Material>,
    lib: ShaderLibrary,
    shader_name: Seq<char>,
    base: TransformData,
    topology: PrimitiveTopology,
) -> Seq<CommandV>
    decreases draws.len(),
{
    if draws.len() == 0 {
        Seq::empty()
    } else {
        let c = draws[0];
        let m = materials[c.material as int];
        let sh = spec_find_shader(lib.shaders@, m.shader_name@)->Some_0;
        spec_render_mesh_cmds(
            shader_name,
            c.vertex_buffer,
            c.index_buffer,
            c.index_count,
            c.index_offset,
            c.vertex_offset,
            m,
            sh,
            Some(
                TransformData {
                    projection: base.projection,
                    view: base.view,
                    model: c.transform,
                    camera_position: base.camera_position,
                },
            ),
            topology,
        ) + spec_draws_cmds(draws.drop_first(), materials, lib, shader_name, base, topology)
    }
}

/// The geometry pass's command stream: clear and bind the geometry target,
/// draw the skybox quad, replay the partitioned draw list, then draw the
/// grid with the identity model matrix.
pub open spec fn spec_geometry_pass_cmds(
    target: RenderTarget,
    skybox_name: Seq<char>,
    skybox_topology: PrimitiveTopology,
    skybox_material: Material,
    skybox_shader: Shader,
    draws: Seq<DrawCommand>,
    materials: Seq<Material>,
    lib: ShaderLibrary,
    geometry_name: Seq<char>,
    geometry_topology: PrimitiveTopology,
    grid_name: Seq<char>,
    grid_topology: PrimitiveTopology,
    grid_mesh: Mesh,
    grid_material: Material,
    grid_shader: Shader,
    base: TransformData,
    quad_vb: VertexBuffer,
    quad_ib: IndexBuffer,
) -> Seq<CommandV> {
    spec_begin_render_pass_cmds(
        target.render_target_views@,
        target.description.ClearColor,
        target.depth_stencil_view,
        target.viewport,
        true,
    ) + spec_render_mesh_cmds(
        skybox_name,
        quad_vb,
        quad_ib,
        quad_ib.index_count,
        0,
        0,
        skybox_material,
        skybox_shader,
        None,
        skybox_topology,
    ) + spec_draws_cmds(draws, materials, lib, geometry_name, base, geometry_topology)
        + spec_render_mesh_cmds(
        grid_name,
        grid_mesh.vertex_buffer,
        grid_mesh.index_buffer,
        grid_mesh.submeshes@[0].IndexCount,
        grid_mesh.submeshes@[0].IndexOffset,
        grid_mesh.submeshes@[0].VertexOffset,
        grid_material,
        grid_shader,
        Some(
            TransformData {
                projection: base.projection,
                view: base.view,
                model: spec_mat4_identity(),
                camera_position: base.camera_position,
            },
        ),
        grid_topology,
    )
}

/// A fullscreen pass's command stream: clear and bind a target, then draw
/// the shared quad with one material.
pub open spec fn spec_quad_pass_cmds(
    rtvs: Seq<SliceViewDesc>,
    clear_color: [u32; 4],
    dsv: Option<SliceViewDesc>,
    viewport: Viewport,
    quad_name: Seq<char>,
    quad_topology: PrimitiveTopology,
    material: Material,
    material_shader: Shader,
    quad_vb: VertexBuffer,
    quad_ib: IndexBuffer,
) -> Seq<CommandV> {
    spec_begin_render_pass_cmds(rtvs, clear_color, dsv, viewport, true) + spec_render_mesh_cmds(
        quad_name,
        quad_vb,
        quad_ib,
        quad_ib.index_count,
        0,
        0,
        material,
        material_shader,
        None,
        quad_topology,
    )
}

impl SceneRenderer {
    /// Begins a frame: points the skybox at the environment map, sets the
    /// transposed camera matrices and position as the frame's transform
    /// block, and records the light-array upload and the environment,
    /// irradiance and BRDF bindings on registers four, five and six.  Fails
    /// exactly when the skybox material declares no "u_EnvironmentMap"
    /// resource, recording nothing.
    #[verifier::rlimit(100)]
    pub fn BeginScene(
        &mut self,
        camera: &CameraData,
        environment: &Environment,
        library: &ShaderLibrary,
        renderer: &Renderer,
    ) -> (r: Result<(), MaterialError>)
        requires
            old(self).wf(),
            spec_find_shader(library.shaders@, "mesh_pbr_shader"@) matches Some(sh)
                && sh.ps_buffer_slots@.len() > 0,
            environment.environment_map.bind_flags.shader_resource,
            environment.irradiance_map.bind_flags.shader_resource,
            renderer.data.BRDFTexture.bind_flags.shader_resource,
        ensures
            final(self).wf(),
            r is Ok <==> spec_find_resource(
                old(self).skybox_material.resources@,
                "u_EnvironmentMap"@,
            ) is Some,
            r matches Err(e) ==> e == MaterialError::ResourceNotFound && *final(self) == *old(self),
            r is Ok ==> {
                &&& final(self).transform_data == (TransformData {
                    projection: spec_transpose(camera.projection),
                    view: spec_transpose(camera.view),
                    model: old(self).transform_data.model,
                    camera_position: camera.position,
                })
                &&& final(self).inv_view_proj == camera.inv_view_projection
                &&& final(self).command_buffer.spec_recorded() == old(self).command_buffer.spec_recorded() + spec_begin_scene_cmds(*environment, *renderer)
                &&& final(self).command_buffer.spec_list() == old(self).command_buffer.spec_list()
                &&& final(self).skybox_material.textures@ == old(self).skybox_material.textures@.update(
                    spec_find_resource(
                        old(self).skybox_material.resources@,
                        "u_EnvironmentMap"@,
                    )->Some_0.register as int,
                    environment.environment_map.id,
                )
                &&& final(self).skybox_material == (Material {
                    textures: final(self).skybox_material.textures,
                    ..old(self).skybox_material
                })
                &&& *final(self) == (SceneRenderer {
                    command_buffer: final(self).command_buffer,
                    transform_data: final(self).transform_data,
                    inv_view_proj: final(self).inv_view_proj,
                    skybox_material: final(self).skybox_material,
                    ..*old(self)
                })
            },
    {
        match self.skybox_material.SetTexture(
            "u_EnvironmentMap",
            environment.GetEnvironmentMap().GetId(),
        ) {
            Ok(_) => {},
            Err(e) => {
                return Err(e);
            },
        }
        self.transform_data = TransformData {
            projection: transpose_mat4(&camera.projection),
            view: transpose_mat4(&camera.view),
            model: self.transform_data.model,
            camera_position: camera.position,
        };
        self.inv_view_proj = camera.inv_view_projection;

        let pbr_shader = match library.GetShader("mesh_pbr_shader") {
            Some(s) => s,
            None => unreached(),
        };
        self.command_buffer.SetPSConstantBufferData(
            pbr_shader,
            UploadPayload::Lights(crate::environment::copy_lights(environment.GetLights())),
            0,
        );

        let env_srv = environment.GetEnvironmentMap().CreateSRV();
        let env_sampler = environment.GetEnvironmentMap().SamplerInfo();
        let mut env_views: Vec<Option<crate::texture::SrvDesc>> = Vec::new();
        env_views.push(Some(env_srv));
        proof {
            assert(env_views@ =~= seq![Some(env_srv)]);
        }
        self.command_buffer.SetPSShaderResources(env_views, 4);
        let mut env_samplers: Vec<Option<crate::texture::SamplerInfo>> = Vec::new();
        env_samplers.push(Some(env_sampler));
        proof {
            assert(env_samplers@ =~= seq![Some(env_sampler)]);
        }
        self.command_buffer.SetPSSamplers(env_samplers, 4);

        let irr_srv = environment.GetIrradianceMap().CreateSRV();
        let irr_sampler = environment.GetIrradianceMap().SamplerInfo();
        let mut irr_views: Vec<Option<crate::texture::SrvDesc>> = Vec::new();
        irr_views.push(Some(irr_srv));
        proof {
            assert(irr_views@ =~= seq![Some(irr_srv)]);
        }
        self.command_buffer.SetPSShaderResources(irr_views, 5);
        let mut irr_samplers: Vec<Option<crate::texture::SamplerInfo>> = Vec::new();
        irr_samplers.push(Some(irr_sampler));
        proof {
            assert(irr_samplers@ =~= seq![Some(irr_sampler)]);
        }
        self.command_buffer.SetPSSamplers(irr_samplers, 5);

        let brdf_srv = renderer.GetBRDF().CreateSRV();
        let brdf_sampler = renderer.GetBRDF().SamplerInfo();
        let mut brdf_views: Vec<Option<crate::texture::SrvDesc>> = Vec::new();
        brdf_views.push(Some(brdf_srv));
        proof {
            assert(brdf_views@ =~= seq![Some(brdf_srv)]);
        }
        self.command_buffer.SetPSShaderResources(brdf_views, 6);
        let mut brdf_samplers: Vec<Option<crate::texture::SamplerInfo>> = Vec::new();
        brdf_samplers.push(Some(brdf_sampler));
        proof {
            assert(brdf_samplers@ =~= seq![Some(brdf_sampler)]);
        }
        self.command_buffer.SetPSSamplers(brdf_samplers, 6);

        proof {
            assert(self.command_buffer.spec_recorded() =~= old(self).command_buffer.spec_recorded() + spec_begin_scene_cmds(*environment, *renderer));
        }
        Ok(())
    }

    pub fn GetExposureBits(&self) -> (r: u32)
        ensures
            r == self.exposure_bits,
    {
        self.exposure_bits
    }

    pub fn SetExposureBits(&mut self, exposure: u32)
        ensures
            final(self).exposure_bits == exposure,
            *final(self) == (SceneRenderer { exposure_bits: exposure, ..*old(self) }),
    {
        self.exposure_bits = exposure;
    }

    /// The composite pass's color output, for on-screen display.
    pub fn GetCompositePassTexture(&self) -> (r: &Texture)
        requires
            self.wf(),
        ensures
            r == &self.composite_target.color_attachments@[0],
    {
        self.composite_target.GetColorAttachment(0)
    }

    pub fn GetCompositePassTarget(&self) -> (r: &RenderTarget)
        ensures
            r == &self.composite_target,
    {
        &self.composite_target
    }
}


impl SceneRenderer {
    /// Records the geometry pass: clears and binds the geometry target,
    /// draws the skybox quad, replays the (already partitioned) draw list
    /// with each draw's own model matrix over the frame's camera block, and
    /// draws the grid last, leaving the frame's model matrix at identity.
    #[verifier::rlimit(100)]
    fn record_geometry_pass(
        &mut self,
        materials: &Vec<Material>,
        library: &ShaderLibrary,
        renderer: &Renderer,
    )
        requires
            forall|j: int|
                0 <= j < old(self).draw_list@.len() ==> {
                    let c = #[trigger] old(self).draw_list@[j];
                    &&& c.material < materials@.len()
                    &&& material_ok_in(materials@[c.material as int], *library)
                },
            material_ok_in(old(self).skybox_material, *library),
            material_ok_in(old(self).grid_material, *library),
            spec_find_shader(library.shaders@, old(self).geometry_pipeline.shader_name@)
                matches Some(g) && g.vs_buffer_slots@.len() > 0,
            spec_find_shader(library.shaders@, old(self).grid_pipeline.shader_name@)
                matches Some(gp) && gp.vs_buffer_slots@.len() > 0,
            old(self).grid_mesh.submeshes@.len() >= 1,
        ensures
            final(self).command_buffer.spec_recorded() == old(self).command_buffer.spec_recorded()
                + spec_geometry_pass_cmds(
                old(self).geometry_target,
                old(self).skybox_pipeline.shader_name@,
                old(self).skybox_pipeline.topology,
                old(self).skybox_material,
                spec_find_shader(
                    library.shaders@,
                    old(self).skybox_material.shader_name@,
                )->Some_0,
                old(self).draw_list@,
                materials@,
                *library,
                old(self).geometry_pipeline.shader_name@,
                old(self).geometry_pipeline.topology,
                old(self).grid_pipeline.shader_name@,
                old(self).grid_pipeline.topology,
                old(self).grid_mesh,
                old(self).grid_material,
                spec_find_shader(library.shaders@, old(self).grid_material.shader_name@)->Some_0,
                old(self).transform_data,
                renderer.data.FullscreenQuadVB,
                renderer.data.FullscreenQuadIB,
            ),
            final(self).command_buffer.spec_list() == old(self).command_buffer.spec_list(),
            final(self).transform_data == (TransformData {
                projection: old(self).transform_data.projection,
                view: old(self).transform_data.view,
                model: spec_mat4_identity(),
                camera_position: old(self).transform_data.camera_position,
            }),
            *final(self) == (SceneRenderer {
                command_buffer: final(self).command_buffer,
                transform_data: final(self).transform_data,
                skybox_pipeline: final(self).skybox_pipeline,
                geometry_pipeline: final(self).geometry_pipeline,
                grid_pipeline: final(self).grid_pipeline,
                ..*old(self)
            }),
            final(self).skybox_pipeline.shader_name == old(self).skybox_pipeline.shader_name,
            final(self).skybox_pipeline.topology == old(self).skybox_pipeline.topology,
            final(self).geometry_pipeline.shader_name == old(self).geometry_pipeline.shader_name,
            final(self).geometry_pipeline.topology == old(self).geometry_pipeline.topology,
            final(self).grid_pipeline.shader_name == old(self).grid_pipeline.shader_name,
            final(self).grid_pipeline.topology == old(self).grid_pipeline.topology,
    {
        Renderer::BeginRenderPass(&mut self.command_buffer, &self.geometry_target, true);

        let skybox_shader = match library.GetShader(self.skybox_material.shader_name.as_str()) {
            Some(s) => s,
            None => unreached(),
        };
        proof {
            assert(material_upload_ok(self.skybox_material, *skybox_shader));
        }
        renderer.RenderFullscreenQuad(
            &mut self.command_buffer,
            &mut self.skybox_pipeline,
            &self.skybox_material,
            skybox_shader,
        );

        let geometry_shader = match library.GetShader(
            self.geometry_pipeline.shader_name.as_str(),
        ) {
            Some(s) => s,
            None => unreached(),
        };
        proof {
            lemma_find_shader_name(library.shaders@, self.geometry_pipeline.shader_name@);
        }
        let ghost sorted = self.draw_list@;
        let ghost pre_loop = *self;
        let ghost base_td = old(self).transform_data;
        let n = self.draw_list.len();
        let mut k: usize = 0;
        proof {
            assert(sorted.skip(0) =~= sorted);
            assert(sorted == old(self).draw_list@);
        }
        while k < n
            invariant
                n == pre_loop.draw_list@.len(),
                k <= n,
                *self == (SceneRenderer {
                    command_buffer: self.command_buffer,
                    geometry_pipeline: self.geometry_pipeline,
                    ..pre_loop
                }),
                self.geometry_pipeline == (GraphicsPipeline {
                    rasterizer_state: self.geometry_pipeline.rasterizer_state,
                    blend_state: self.geometry_pipeline.blend_state,
                    depth_stencil_state: self.geometry_pipeline.depth_stencil_state,
                    ..pre_loop.geometry_pipeline
                }),
                sorted == pre_loop.draw_list@,
                base_td == (TransformData {
                    model: base_td.model,
                    ..pre_loop.transform_data
                }),
                forall|j: int|
                    0 <= j < sorted.len() ==> {
                        let c = #[trigger] sorted[j];
                        &&& c.material < materials@.len()
                        &&& material_ok_in(materials@[c.material as int], *library)
                    },
                geometry_shader.name@ == pre_loop.geometry_pipeline.shader_name@,
                geometry_shader.vs_buffer_slots@.len() > 0,
                spec_find_shader(library.shaders@, pre_loop.geometry_pipeline.shader_name@)
                    == Some(*geometry_shader),
                self.command_buffer.spec_recorded() + spec_draws_cmds(
                    sorted.skip(k as int),
                    materials@,
                    *library,
                    pre_loop.geometry_pipeline.shader_name@,
                    base_td,
                    pre_loop.geometry_pipeline.topology,
                ) == pre_loop.command_buffer.spec_recorded() + spec_draws_cmds(
                    sorted,
                    materials@,
                    *library,
                    pre_loop.geometry_pipeline.shader_name@,
                    base_td,
                    pre_loop.geometry_pipeline.topology,
                ),
                self.command_buffer.spec_list() == pre_loop.command_buffer.spec_list(),
            decreases n - k,
        {
            proof {
                assert(sorted.skip(k as int)[0] == sorted[k as int]);
                assert(sorted.skip(k as int).drop_first() =~= sorted.skip(k as int + 1));
            }
            let ghost prev = self.command_buffer.spec_recorded();
            let c = self.draw_list[k];
            let m = &materials[c.material];
            let material_shader = match library.GetShader(m.shader_name.as_str()) {
                Some(s) => s,
                None => unreached(),
            };
            let uniform = TransformData {
                projection: self.transform_data.projection,
                view: self.transform_data.view,
                model: c.transform,
                camera_position: self.transform_data.camera_position,
            };
            Renderer::RenderDraw(
                &mut self.command_buffer,
                &mut self.geometry_pipeline,
                &c.vertex_buffer,
                &c.index_buffer,
                c.index_count,
                c.index_offset,
                c.vertex_offset,
                m,
                material_shader,
                geometry_shader,
                Some(uniform),
            );
            proof {
                assert(self.command_buffer.spec_recorded() + spec_draws_cmds(
                    sorted.skip(k as int + 1),
                    materials@,
                    *library,
                    pre_loop.geometry_pipeline.shader_name@,
                    base_td,
                    pre_loop.geometry_pipeline.topology,
                ) =~= prev + spec_draws_cmds(
                    sorted.skip(k as int),
                    materials@,
                    *library,
                    pre_loop.geometry_pipeline.shader_name@,
                    base_td,
                    pre_loop.geometry_pipeline.topology,
                ));
            }
            k = k + 1;
        }
        proof {
            assert(spec_draws_cmds(
                sorted.skip(n as int),
                materials@,
                *library,
                pre_loop.geometry_pipeline.shader_name@,
                base_td,
                pre_loop.geometry_pipeline.topology,
            ) =~= Seq::<CommandV>::empty());
            assert(self.command_buffer.spec_recorded() + Seq::<CommandV>::empty()
                =~= self.command_buffer.spec_recorded());
        }

        self.transform_data.model = mat4_identity();
        let grid_shader = match library.GetShader(self.grid_material.shader_name.as_str()) {
            Some(s) => s,
            None => unreached(),
        };
        let grid_pipeline_shader = match library.GetShader(
            self.grid_pipeline.shader_name.as_str(),
        ) {
            Some(s) => s,
            None => unreached(),
        };
        let grid_uniform = self.transform_data;
        proof {
            lemma_find_shader_name(library.shaders@, self.grid_pipeline.shader_name@);
            lemma_find_shader_name(library.shaders@, self.grid_material.shader_name@);
            assert(self.grid_material == old(self).grid_material);
            assert(self.grid_mesh == old(self).grid_mesh);
            assert(material_upload_ok(self.grid_material, *grid_shader));
        }
        Renderer::RenderMesh(
            &mut self.command_buffer,
            &mut self.grid_pipeline,
            &self.grid_mesh,
            0,
            &self.grid_material,
            grid_shader,
            grid_pipeline_shader,
            Some(grid_uniform),
        );
        proof {
            assert(self.command_buffer.spec_recorded() =~= old(self).command_buffer.spec_recorded()
                + spec_geometry_pass_cmds(
                old(self).geometry_target,
                old(self).skybox_pipeline.shader_name@,
                old(self).skybox_pipeline.topology,
                old(self).skybox_material,
                spec_find_shader(
                    library.shaders@,
                    old(self).skybox_material.shader_name@,
                )->Some_0,
                old(self).draw_list@,
                materials@,
                *library,
                old(self).geometry_pipeline.shader_name@,
                old(self).geometry_pipeline.topology,
                old(self).grid_pipeline.shader_name@,
                old(self).grid_pipeline.topology,
                old(self).grid_mesh,
                old(self).grid_material,
                spec_find_shader(library.shaders@, old(self).grid_material.shader_name@)->Some_0,
                old(self).transform_data,
                renderer.data.FullscreenQuadVB,
                renderer.data.FullscreenQuadIB,
            ));
        }
    }

    /// Records the tone-mapping composite pass: clears and binds the
    /// composite target and draws the shared quad with the composite
    /// material.
    fn record_composite_pass(&mut self, library: &ShaderLibrary, renderer: &Renderer)
        requires
            material_ok_in(old(self).composite_material, *library),
        ensures
            final(self).command_buffer.spec_recorded() == old(self).command_buffer.spec_recorded()
                + spec_quad_pass_cmds(
                old(self).composite_target.render_target_views@,
                old(self).composite_target.description.ClearColor,
                old(self).composite_target.depth_stencil_view,
                old(self).composite_target.viewport,
                old(self).composite_pipeline.shader_name@,
                old(self).composite_pipeline.topology,
                old(self).composite_material,
                spec_find_shader(
                    library.shaders@,
                    old(self).composite_material.shader_name@,
                )->Some_0,
                renderer.data.FullscreenQuadVB,
                renderer.data.FullscreenQuadIB,
            ),
            final(self).command_buffer.spec_list() == old(self).command_buffer.spec_list(),
            *final(self) == (SceneRenderer {
                command_buffer: final(self).command_buffer,
                composite_pipeline: final(self).composite_pipeline,
                ..*old(self)
            }),
            final(self).composite_pipeline.shader_name == old(self).composite_pipeline.shader_name,
            final(self).composite_pipeline.topology == old(self).composite_pipeline.topology,
    {
        Renderer::BeginRenderPass(&mut self.command_buffer, &self.composite_target, true);
        let composite_shader = match library.GetShader(
            self.composite_material.shader_name.as_str(),
        ) {
            Some(s) => s,
            None => unreached(),
        };
        proof {
            assert(material_upload_ok(self.composite_material, *composite_shader));
        }
        renderer.RenderFullscreenQuad(
            &mut self.command_buffer,
            &mut self.composite_pipeline,
            &self.composite_material,
            composite_shader,
        );
        proof {
            assert(self.command_buffer.spec_recorded() =~= old(self).command_buffer.spec_recorded()
                + spec_quad_pass_cmds(
                old(self).composite_target.render_target_views@,
                old(self).composite_target.description.ClearColor,
                old(self).composite_target.depth_stencil_view,
                old(self).composite_target.viewport,
                old(self).composite_pipeline.shader_name@,
                old(self).composite_pipeline.topology,
                old(self).composite_material,
                spec_find_shader(
                    library.shaders@,
                    old(self).composite_material.shader_name@,
                )->Some_0,
                renderer.data.FullscreenQuadVB,
                renderer.data.FullscreenQuadIB,
            ));
        }
    }

    /// Records the presentation pass: clears and binds the swap chain's
    /// targets to the fixed gray and draws the shared quad with the
    /// presentation material.
    fn record_swapchain_pass(
        &mut self,
        library: &ShaderLibrary,
        renderer: &Renderer,
        swapChainViews: &Vec<SliceViewDesc>,
        swapChainDepth: Option<SliceViewDesc>,
        swapChainViewport: Viewport,
    )
        requires
            material_ok_in(old(self).fullscreen_quad_material, *library),
        ensures
            final(self).command_buffer.spec_recorded() == old(self).command_buffer.spec_recorded()
                + spec_quad_pass_cmds(
                swapChainViews@,
                [F32_POINT_THREE_BITS, F32_POINT_THREE_BITS, F32_POINT_THREE_BITS, F32_ONE_BITS],
                swapChainDepth,
                swapChainViewport,
                old(self).fullscreen_quad_pipeline.shader_name@,
                old(self).fullscreen_quad_pipeline.topology,
                old(self).fullscreen_quad_material,
                spec_find_shader(
                    library.shaders@,
                    old(self).fullscreen_quad_material.shader_name@,
                )->Some_0,
                renderer.data.FullscreenQuadVB,
                renderer.data.FullscreenQuadIB,
            ),
            final(self).command_buffer.spec_list() == old(self).command_buffer.spec_list(),
            *final(self) == (SceneRenderer {
                command_buffer: final(self).command_buffer,
                fullscreen_quad_pipeline: final(self).fullscreen_quad_pipeline,
                ..*old(self)
            }),
            final(self).fullscreen_quad_pipeline.shader_name == old(self).fullscreen_quad_pipeline.shader_name,
            final(self).fullscreen_quad_pipeline.topology == old(self).fullscreen_quad_pipeline.topology,
    {
        let views = crate::renderer::copy_views(swapChainViews);
        Renderer::BeginSwapChainRenderPass(
            &mut self.command_buffer,
            views,
            swapChainDepth,
            swapChainViewport,
            true,
        );
        let fsq_shader = match library.GetShader(
            self.fullscreen_quad_material.shader_name.as_str(),
        ) {
            Some(s) => s,
            None => unreached(),
        };
        proof {
            assert(material_upload_ok(self.fullscreen_quad_material, *fsq_shader));
        }
        renderer.RenderFullscreenQuad(
            &mut self.command_buffer,
            &mut self.fullscreen_quad_pipeline,
            &self.fullscreen_quad_material,
            fsq_shader,
        );
        proof {
            assert(self.command_buffer.spec_recorded() =~= old(self).command_buffer.spec_recorded()
                + spec_quad_pass_cmds(
                swapChainViews@,
                [F32_POINT_THREE_BITS, F32_POINT_THREE_BITS, F32_POINT_THREE_BITS, F32_ONE_BITS],
                swapChainDepth,
                swapChainViewport,
                old(self).fullscreen_quad_pipeline.shader_name@,
                old(self).fullscreen_quad_pipeline.topology,
                old(self).fullscreen_quad_material,
                spec_find_shader(
                    library.shaders@,
                    old(self).fullscreen_quad_material.shader_name@,
                )->Some_0,
                renderer.data.FullscreenQuadVB,
                renderer.data.FullscreenQuadIB,
            ));
        }
    }

    /// Flushes the frame: writes the skybox's inverse view-projection, the
    /// composite pass's scene texture and exposure, and (when presenting)
    /// the presentation quad's texture; stable-partitions the draw list so
    /// transparent draws follow opaque ones; records the geometry pass
    /// (clear, skybox, every draw in partitioned order, grid), the
    /// tone-mapping composite pass and optionally the presentation pass;
    /// seals the recording and hands the command list back for submission,
    /// leaving the draw list empty.  Fails exactly when one of the uniform
    /// or resource names the passes rely on is not declared with the
    /// expected size.
    #[verifier::rlimit(100)]
    pub fn Flush(
        &mut self,
        materials: &Vec<Material>,
        library: &ShaderLibrary,
        renderer: &Renderer,
        swapChainViews: &Vec<SliceViewDesc>,
        swapChainDepth: Option<SliceViewDesc>,
        swapChainViewport: Viewport,
    ) -> (r: Result<Vec<Command>, MaterialError>)
        requires
            old(self).wf(),
            forall|k: int|
                0 <= k < old(self).draw_list@.len() ==> {
                    let c = #[trigger] old(self).draw_list@[k];
                    &&& c.material < materials@.len()
                    &&& material_ok_in(materials@[c.material as int], *library)
                },
            material_ok_in(old(self).grid_material, *library),
            material_ok_in(old(self).skybox_material, *library),
            material_ok_in(old(self).composite_material, *library),
            material_ok_in(old(self).fullscreen_quad_material, *library),
            spec_find_shader(library.shaders@, old(self).geometry_pipeline.shader_name@)
                matches Some(g) && g.vs_buffer_slots@.len() > 0,
            spec_find_shader(library.shaders@, old(self).grid_pipeline.shader_name@)
                matches Some(gp) && gp.vs_buffer_slots@.len() > 0,
        ensures
            ({
                let sky_ok = spec_find_uniform(
                    old(self).skybox_material.uniforms@,
                    "u_InvViewProjMatrix"@,
                ) matches Some(u) && u.size == 64;
                let comp_tex_ok = spec_find_resource(
                    old(self).composite_material.resources@,
                    "u_SceneTexture"@,
                ) is Some;
                let comp_exp_ok = spec_find_uniform(
                    old(self).composite_material.uniforms@,
                    "u_Exposure"@,
                ) matches Some(u2) && u2.size == 4;
                let fsq_ok = !old(self).swap_chain_target || spec_find_resource(
                    old(self).fullscreen_quad_material.resources@,
                    "u_SceneTexture"@,
                ) is Some;
                r is Ok <==> (sky_ok && comp_tex_ok && comp_exp_ok && fsq_ok)
            }),
            r matches Ok(cmds) ==> {
                let base = old(self).transform_data;
                &&& final(self).wf()
                &&& final(self).draw_list@.len() == 0
                &&& final(self).command_buffer.spec_recorded() == Seq::<CommandV>::empty()
                &&& final(self).command_buffer.spec_list() is None
                &&& final(self).transform_data == (TransformData {
                    projection: base.projection,
                    view: base.view,
                    model: spec_mat4_identity(),
                    camera_position: base.camera_position,
                })
                &&& final(self).exposure_bits == old(self).exposure_bits
                &&& final(self).swap_chain_target == old(self).swap_chain_target
                &&& final(self).geometry_target == old(self).geometry_target
                &&& final(self).composite_target == old(self).composite_target
                &&& final(self).grid_mesh == old(self).grid_mesh
                &&& final(self).grid_material == old(self).grid_material
                &&& final(self).geometry_pipeline.shader_name == old(self).geometry_pipeline.shader_name
                &&& final(self).geometry_pipeline.topology == old(self).geometry_pipeline.topology
                &&& final(self).skybox_pipeline.shader_name == old(self).skybox_pipeline.shader_name
                &&& final(self).composite_pipeline.shader_name == old(self).composite_pipeline.shader_name
                &&& final(self).fullscreen_quad_pipeline.shader_name == old(self).fullscreen_quad_pipeline.shader_name
                &&& final(self).grid_pipeline.shader_name == old(self).grid_pipeline.shader_name
                &&& ({
                    let u = spec_find_uniform(
                        old(self).skybox_material.uniforms@,
                        "u_InvViewProjMatrix"@,
                    )->Some_0;
                    let bytes = spec_mat4_le_bytes(old(self).inv_view_proj);
                    &&& (u.stage == crate::shader_types::ShaderType::VS ==> final(self).skybox_material.vs_uniform_buffer@ == spec_write_bytes(
                        old(self).skybox_material.vs_uniform_buffer@,
                        u.byte_offset as int,
                        bytes,
                    ))
                    &&& (u.stage == crate::shader_types::ShaderType::PS ==> final(self).skybox_material.ps_uniform_buffer@ == spec_write_bytes(
                        old(self).skybox_material.ps_uniform_buffer@,
                        u.byte_offset as int,
                        bytes,
                    ))
                    &&& final(self).skybox_material == (Material {
                        vs_uniform_buffer: final(self).skybox_material.vs_uniform_buffer,
                        ps_uniform_buffer: final(self).skybox_material.ps_uniform_buffer,
                        ..old(self).skybox_material
                    })
                })
                &&& ({
                    let res = spec_find_resource(
                        old(self).composite_material.resources@,
                        "u_SceneTexture"@,
                    )->Some_0;
                    final(self).composite_material.textures@ == old(self).composite_material.textures@.update(
                        res.register as int,
                        old(self).geometry_target.color_attachments@[0].id,
                    )
                })
                &&& (old(self).swap_chain_target ==> final(self).fullscreen_quad_material.textures@ == old(self).fullscreen_quad_material.textures@.update(
                    spec_find_resource(
                        old(self).fullscreen_quad_material.resources@,
                        "u_SceneTexture"@,
                    )->Some_0.register as int,
                    old(self).composite_target.color_attachments@[0].id,
                ))
                &&& ({
                    let u2 = spec_find_uniform(
                        old(self).composite_material.uniforms@,
                        "u_Exposure"@,
                    )->Some_0;
                    let ebytes = vstd::bytes::spec_u32_to_le_bytes(old(self).exposure_bits);
                    &&& (u2.stage == crate::shader_types::ShaderType::VS ==> final(self).composite_material.vs_uniform_buffer@ == spec_write_bytes(
                        old(self).composite_material.vs_uniform_buffer@,
                        u2.byte_offset as int,
                        ebytes,
                    ))
                    &&& (u2.stage == crate::shader_types::ShaderType::PS ==> final(self).composite_material.ps_uniform_buffer@ == spec_write_bytes(
                        old(self).composite_material.ps_uniform_buffer@,
                        u2.byte_offset as int,
                        ebytes,
                    ))
                    &&& final(self).composite_material == (Material {
                        textures: final(self).composite_material.textures,
                        vs_uniform_buffer: final(self).composite_material.vs_uniform_buffer,
                        ps_uniform_buffer: final(self).composite_material.ps_uniform_buffer,
                        ..old(self).composite_material
                    })
                })
                &&& (old(self).swap_chain_target ==> final(self).fullscreen_quad_material == (
                Material {
                    textures: final(self).fullscreen_quad_material.textures,
                    ..old(self).fullscreen_quad_material
                }))
                &&& (!old(self).swap_chain_target ==> final(self).fullscreen_quad_material == old(self).fullscreen_quad_material)
                &&& cmds.deep_view() == old(self).command_buffer.spec_recorded() + (
                spec_geometry_pass_cmds(
                    old(self).geometry_target,
                    old(self).skybox_pipeline.shader_name@,
                    old(self).skybox_pipeline.topology,
                    final(self).skybox_material,
                    spec_find_shader(
                        library.shaders@,
                        old(self).skybox_material.shader_name@,
                    )->Some_0,
                    spec_opaque_draws(old(self).draw_list@, materials@) + spec_transparent_draws(
                        old(self).draw_list@,
                        materials@,
                    ),
                    materials@,
                    *library,
                    old(self).geometry_pipeline.shader_name@,
                    old(self).geometry_pipeline.topology,
                    old(self).grid_pipeline.shader_name@,
                    old(self).grid_pipeline.topology,
                    old(self).grid_mesh,
                    old(self).grid_material,
                    spec_find_shader(
                        library.shaders@,
                        old(self).grid_material.shader_name@,
                    )->Some_0,
                    old(self).transform_data,
                    renderer.data.FullscreenQuadVB,
                    renderer.data.FullscreenQuadIB,
                ) + spec_quad_pass_cmds(
                    old(self).composite_target.render_target_views@,
                    old(self).composite_target.description.ClearColor,
                    old(self).composite_target.depth_stencil_view,
                    old(self).composite_target.viewport,
                    old(self).composite_pipeline.shader_name@,
                    old(self).composite_pipeline.topology,
                    final(self).composite_material,
                    spec_find_shader(
                        library.shaders@,
                        old(self).composite_material.shader_name@,
                    )->Some_0,
                    renderer.data.FullscreenQuadVB,
                    renderer.data.FullscreenQuadIB,
                ) + (if old(self).swap_chain_target {
                    spec_quad_pass_cmds(
                        swapChainViews@,
                        [
                            F32_POINT_THREE_BITS,
                            F32_POINT_THREE_BITS,
                            F32_POINT_THREE_BITS,
                            F32_ONE_BITS,
                        ],
                        swapChainDepth,
                        swapChainViewport,
                        old(self).fullscreen_quad_pipeline.shader_name@,
                        old(self).fullscreen_quad_pipeline.topology,
                        final(self).fullscreen_quad_material,
                        spec_find_shader(
                            library.shaders@,
                            old(self).fullscreen_quad_material.shader_name@,
                        )->Some_0,
                        renderer.data.FullscreenQuadVB,
                        renderer.data.FullscreenQuadIB,
                    )
                } else {
                    Seq::empty()
                }))
            },
    {
        // Fallible material preparation first: nothing is recorded until
        // every needed declaration is found.
        let bytes = mat4_to_le_bytes(&self.inv_view_proj);
        proof {
            crate::command::lemma_mat4_bytes_len(self.inv_view_proj);
        }
        match self.skybox_material.SetUniform("u_InvViewProjMatrix", &bytes) {
            Ok(_) => {},
            Err(e) => {
                return Err(e);
            },
        }
        let geometry_color0 = self.geometry_target.GetColorAttachment(0).GetId();
        match self.composite_material.SetTexture("u_SceneTexture", geometry_color0) {
            Ok(_) => {},
            Err(e) => {
                return Err(e);
            },
        }
        let exposure_bytes = vstd::bytes::u32_to_le_bytes(self.exposure_bits);
        match self.composite_material.SetUniform("u_Exposure", &exposure_bytes) {
            Ok(_) => {},
            Err(e) => {
                return Err(e);
            },
        }
        if self.swap_chain_target {
            let composite_color0 = self.composite_target.GetColorAttachment(0).GetId();
            match self.fullscreen_quad_material.SetTexture("u_SceneTexture", composite_color0) {
                Ok(_) => {},
                Err(e) => {
                    return Err(e);
                },
            }
        }

        self.PreRender(materials);
        proof {
            let l0 = old(self).draw_list@;
            let sorted = self.draw_list@;
            assert forall|j: int| 0 <= j < sorted.len() implies {
                let c = #[trigger] sorted[j];
                &&& c.material < materials@.len()
                &&& material_ok_in(materials@[c.material as int], *library)
            } by {
                let opq = spec_opaque_draws(l0, materials@);
                if j < opq.len() {
                    lemma_opaque_mem(l0, materials@, j);
                    let idx = choose|k2: int| 0 <= k2 < l0.len() && l0[k2] == opq[j];
                    assert(l0[idx].material < materials@.len());
                } else {
                    lemma_transparent_mem(l0, materials@, j - opq.len());
                    let tr = spec_transparent_draws(l0, materials@);
                    let idx = choose|k2: int|
                        0 <= k2 < l0.len() && l0[k2] == tr[j - opq.len()];
                    assert(l0[idx].material < materials@.len());
                }
            }
            // the written skybox material keeps its buffer sizes, so its
            // upload facts carry over from the entry state
            assert(material_ok_in(old(self).skybox_material, *library));
            crate::material::lemma_spec_find_uniform_in(
                old(self).skybox_material.uniforms@,
                "u_InvViewProjMatrix"@,
            );
            assert(self.skybox_material.vs_uniform_buffer@.len() == old(self).skybox_material.vs_uniform_buffer@.len());
            assert(self.skybox_material.ps_uniform_buffer@.len() == old(self).skybox_material.ps_uniform_buffer@.len());
            assert(material_ok_in(self.skybox_material, *library));
        }
        self.record_geometry_pass(materials, library, renderer);
        proof {
            assert(material_ok_in(old(self).composite_material, *library));
            crate::material::lemma_spec_find_uniform_in(
                old(self).composite_material.uniforms@,
                "u_Exposure"@,
            );
            assert(self.composite_material.vs_uniform_buffer@.len() == old(self).composite_material.vs_uniform_buffer@.len());
            assert(self.composite_material.ps_uniform_buffer@.len() == old(self).composite_material.ps_uniform_buffer@.len());
            assert(material_ok_in(self.composite_material, *library));
        }
        self.record_composite_pass(library, renderer);
        if self.swap_chain_target {
            proof {
                assert(material_ok_in(old(self).fullscreen_quad_material, *library));
                assert(material_ok_in(self.fullscreen_quad_material, *library));
            }
            self.record_swapchain_pass(
                library,
                renderer,
                swapChainViews,
                swapChainDepth,
                swapChainViewport,
            );
        }
        self.command_buffer.Finish();
        let cmds = self.command_buffer.TakeCommandList();
        self.draw_list = Vec::new();
        proof {
            assert(cmds.deep_view() =~= old(self).command_buffer.spec_recorded() + (
            spec_geometry_pass_cmds(
                old(self).geometry_target,
                old(self).skybox_pipeline.shader_name@,
                old(self).skybox_pipeline.topology,
                self.skybox_material,
                spec_find_shader(
                    library.shaders@,
                    old(self).skybox_material.shader_name@,
                )->Some_0,
                spec_opaque_draws(old(self).draw_list@, materials@) + spec_transparent_draws(
                    old(self).draw_list@,
                    materials@,
                ),
                materials@,
                *library,
                old(self).geometry_pipeline.shader_name@,
                old(self).geometry_pipeline.topology,
                old(self).grid_pipeline.shader_name@,
                old(self).grid_pipeline.topology,
                old(self).grid_mesh,
                old(self).grid_material,
                spec_find_shader(library.shaders@, old(self).grid_material.shader_name@)->Some_0,
                old(self).transform_data,
                renderer.data.FullscreenQuadVB,
                renderer.data.FullscreenQuadIB,
            ) + spec_quad_pass_cmds(
                old(self).composite_target.render_target_views@,
                old(self).composite_target.description.ClearColor,
                old(self).composite_target.depth_stencil_view,
                old(self).composite_target.viewport,
                old(self).composite_pipeline.shader_name@,
                old(self).composite_pipeline.topology,
                self.composite_material,
                spec_find_shader(
                    library.shaders@,
                    old(self).composite_material.shader_name@,
                )->Some_0,
                renderer.data.FullscreenQuadVB,
                renderer.data.FullscreenQuadIB,
            ) + (if old(self).swap_chain_target {
                spec_quad_pass_cmds(
                    swapChainViews@,
                    [
                        F32_POINT_THREE_BITS,
                        F32_POINT_THREE_BITS,
                        F32_POINT_THREE_BITS,
                        F32_ONE_BITS,
                    ],
                    swapChainDepth,
                    swapChainViewport,
                    old(self).fullscreen_quad_pipeline.shader_name@,
                    old(self).fullscreen_quad_pipeline.topology,
                    self.fullscreen_quad_material,
                    spec_find_shader(
                        library.shaders@,
                        old(self).fullscreen_quad_material.shader_name@,
                    )->Some_0,
                    renderer.data.FullscreenQuadVB,
                    renderer.data.FullscreenQuadIB,
                )
            } else {
                Seq::empty()
            })));
        }
        Ok(cmds)
    }
}


/// An opaque draw of the partition comes from the submitted list.
proof fn lemma_opaque_mem(l: Seq<DrawCommand>, mats: Seq<Material>, j: int)
    requires
        0 <= j < spec_opaque_draws(l, mats).len(),
    ensures
        exists|i: int| 0 <= i < l.len() && l[i] == spec_opaque_draws(l, mats)[j],
    decreases l.len(),
{
    reveal(Seq::filter);
    if l.len() > 0 {
        let x = spec_opaque_draws(l, mats)[j];
        let rest = spec_opaque_draws(l.drop_last(), mats);
        if !spec_cmd_transparent(mats, l.last()) {
            if j < rest.len() {
                lemma_opaque_mem(l.drop_last(), mats, j);
                let i = choose|i: int|
                    0 <= i < l.drop_last().len() && l.drop_last()[i] == rest[j];
                assert(l[i] == l.drop_last()[i]);
            } else {
                assert(l[l.len() - 1] == x);
            }
        } else {
            lemma_opaque_mem(l.drop_last(), mats, j);
            let i = choose|i: int|
                0 <= i < l.drop_last().len() && l.drop_last()[i] == rest[j];
            assert(l[i] == l.drop_last()[i]);
        }
    }
}

/// A transparent draw of the partition comes from the submitted list.
proof fn lemma_transparent_mem(l: Seq<DrawCommand>, mats: Seq<Material>, j: int)
    requires
        0 <= j < spec_transparent_draws(l, mats).len(),
    ensures
        exists|i: int| 0 <= i < l.len() && l[i] == spec_transparent_draws(l, mats)[j],
    decreases l.len(),
{
    reveal(Seq::filter);
    if l.len() > 0 {
        let x = spec_transparent_draws(l, mats)[j];
        let rest = spec_transparent_draws(l.drop_last(), mats);
        if spec_cmd_transparent(mats, l.last()) {
            if j < rest.len() {
                lemma_transparent_mem(l.drop_last(), mats, j);
                let i = choose|i: int|
                    0 <= i < l.drop_last().len() && l.drop_last()[i] == rest[j];
                assert(l[i] == l.drop_last()[i]);
            } else {
                assert(l[l.len() - 1] == x);
            }
        } else {
            lemma_transparent_mem(l.drop_last(), mats, j);
            let i = choose|i: int|
                0 <= i < l.drop_last().len() && l.drop_last()[i] == rest[j];
            assert(l[i] == l.drop_last()[i]);
        }
    }
}

} // verus!
