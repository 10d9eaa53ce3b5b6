//! Render targets, environment baking and the scene renderer's frame flow.

use rusty_engine::texture::{
    Texture, TextureDescription, SamplerDescription, ResourceIds, BindFlags, TextureFormat,
    TextureWrap, TextureFilter,
};
use rusty_engine::render_target::{
    RenderTarget, RenderTargetDescription, RenderTargetAttachment,
};
use rusty_engine::command::{CommandBuffer, Command, UploadPayload, Mat4Bits};
use rusty_engine::shader::{Shader, ComputeShader};
use rusty_engine::shader_library::ShaderLibrary;
use rusty_engine::renderer::Renderer;
use rusty_engine::scene_renderer::{SceneRenderer, mat4_identity};
use rusty_engine::material::Material;
use rusty_engine::states::MaterialFlags;
use rusty_engine::mesh::{Mesh, Submesh};
use rusty_engine::buffers::{
    VertexBuffer, IndexBuffer, VertexBufferDescription, IndexBufferDescription, BufferUsage,
    IndexFormat,
};
use rusty_engine::environment::{Light, F32_ONE_BITS, F32_LINEAR_ATTENUATION_BITS};

fn color_depth_target(ids: &mut ResourceIds) -> RenderTarget {
    RenderTarget::Create(
        RenderTargetDescription {
            Width: 1280,
            Height: 720,
            ClearColor: [0, 0, 0, F32_ONE_BITS],
            Attachments: vec![
                RenderTargetAttachment {
                    Format: TextureFormat::R16G16B16A16Float,
                    MipCount: 1,
                    Wrap: TextureWrap::Wrap,
                    Filter: TextureFilter::Anisotropic,
                },
                RenderTargetAttachment {
                    Format: TextureFormat::D24UnormS8Uint,
                    MipCount: 1,
                    Wrap: TextureWrap::Wrap,
                    Filter: TextureFilter::Anisotropic,
                },
            ],
        },
        ids,
    )
}

#[test]
fn resize_to_same_dimensions_recreates_nothing() {
    let mut ids = ResourceIds::new();
    let mut target = color_depth_target(&mut ids);
    let color_id = target.GetColorAttachment(0).GetId();
    let depth_id = target.GetDepthAttachment().as_ref().unwrap().GetId();
    let next_before = ids.next;
    target.Resize(1280, 720, &mut ids);
    assert_eq!(target.GetColorAttachment(0).GetId(), color_id);
    assert_eq!(target.GetDepthAttachment().as_ref().unwrap().GetId(), depth_id);
    assert_eq!(ids.next, next_before);
}

#[test]
fn resize_preserves_attachment_count_and_formats() {
    let mut ids = ResourceIds::new();
    let mut target = color_depth_target(&mut ids);
    target.Resize(1920, 1080, &mut ids);
    assert_eq!(target.GetRTVs().len(), 1);
    assert!(target.GetDepthAttachment().is_some());
    // One color and one depth attachment survive the resize.
    assert_eq!(
        target.GetColorAttachment(0).GetFormat(),
        TextureFormat::R16G16B16A16Float
    );
    // Depth textures are stored typeless.
    assert_eq!(
        target.GetDepthAttachment().as_ref().unwrap().GetFormat(),
        TextureFormat::R24G8Typeless
    );
    assert_eq!(target.GetColorAttachment(0).GetWidth(), 1920);
    assert_eq!(target.GetColorAttachment(0).GetHeight(), 1080);
    assert_eq!(target.GetViewport().width, 1920);
    assert_eq!(target.GetViewport().height, 1080);
}

fn baking_library() -> ShaderLibrary {
    let mut library = ShaderLibrary::Create();
    library.AddComputeShader(
        ComputeShader::FromSource("environment_equirect_to_cube", "").unwrap(),
    );
    library.AddComputeShader(
        ComputeShader::FromSource(
            "environment_prefilter",
            "cbuffer Params : register(b0) { float u_Roughness; }",
        )
        .unwrap(),
    );
    library.AddComputeShader(ComputeShader::FromSource("environment_irradiance", "").unwrap());
    library.AddComputeShader(ComputeShader::FromSource("environment_brdf", "").unwrap());
    library
}

#[test]
fn baked_environment_maps_have_the_fixed_shapes() {
    let mut ids = ResourceIds::new();
    let library = baking_library();
    let mut cb = CommandBuffer::Create();
    let hdr = Texture::CreateTexture2D(
        &TextureDescription {
            name: String::from("sky"),
            format: TextureFormat::R32G32B32A32Float,
            width: 4096,
            height: 2048,
            mip_count: 1,
            bind_flags: BindFlags {
                shader_resource: true,
                render_target: false,
                depth_stencil: false,
                unordered_access: false,
            },
            image_dims: vec![],
        },
        &SamplerDescription { wrap: TextureWrap::Wrap, filter: TextureFilter::MinMagMipLinear },
        &mut ids,
    );
    let (env, irr) = Renderer::CreateEnvironmentMap(&mut cb, &library, &hdr, "sky", &mut ids);
    assert_eq!(env.GetWidth(), 1024);
    assert_eq!(env.GetHeight(), 1024);
    assert_eq!(env.GetMipCount(), 11);
    assert!(env.is_cubemap);
    assert_eq!(env.array_size, 6);
    assert_eq!(irr.GetWidth(), 32);
    assert_eq!(irr.GetHeight(), 32);
    assert_eq!(irr.GetMipCount(), 1);
    assert!(irr.is_cubemap);
    assert_eq!(irr.array_size, 6);
}

#[test]
fn prefilter_roughness_steps_by_exactly_one_tenth() {
    let mut ids = ResourceIds::new();
    let library = baking_library();
    let mut cb = CommandBuffer::Create();
    let hdr = Texture::CreateTexture2D(
        &TextureDescription {
            name: String::from("sky"),
            format: TextureFormat::R32G32B32A32Float,
            width: 4096,
            height: 2048,
            mip_count: 1,
            bind_flags: BindFlags {
                shader_resource: true,
                render_target: false,
                depth_stencil: false,
                unordered_access: false,
            },
            image_dims: vec![],
        },
        &SamplerDescription { wrap: TextureWrap::Wrap, filter: TextureFilter::MinMagMipLinear },
        &mut ids,
    );
    let _ = Renderer::CreateEnvironmentMap(&mut cb, &library, &hdr, "sky", &mut ids);
    let mut roughness_uploads: Vec<(u32, u32)> = Vec::new();
    let mut dispatch_groups: Vec<(u32, u32, u32)> = Vec::new();
    for cmd in cb.recorded.iter() {
        match cmd {
            Command::UploadCSConstantBuffer {
                payload: UploadPayload::Roughness { mip, levels },
                ..
            } => roughness_uploads.push((*mip, *levels)),
            Command::Dispatch { shader, x, y, z } => {
                if shader == "environment_prefilter" {
                    dispatch_groups.push((*x, *y, *z));
                }
            }
            _ => {}
        }
    }
    assert_eq!(roughness_uploads.len(), 10);
    for (i, (mip, levels)) in roughness_uploads.iter().enumerate() {
        assert_eq!(*mip as usize, i + 1);
        assert_eq!(*levels, 11);
        let roughness = *mip as f32 / (*levels - 1) as f32;
        assert_eq!(roughness, (i + 1) as f32 / 10.0);
    }
    // Dispatch sizes halve with the face size, never below one group.
    assert_eq!(
        dispatch_groups,
        vec![
            (16, 16, 6),
            (8, 8, 6),
            (4, 4, 6),
            (2, 2, 6),
            (1, 1, 6),
            (1, 1, 6),
            (1, 1, 6),
            (1, 1, 6),
            (1, 1, 6),
            (1, 1, 6),
        ]
    );
}

fn frame_library() -> ShaderLibrary {
    let mut library = ShaderLibrary::Create();
    library.AddShader(
        Shader::FromSource(
            "mesh_pbr_shader",
            "cbuffer PSMaterialBuffer : register(b0) { float4 AlbedoColor; float Metalness; }",
        )
        .unwrap(),
    );
    library.AddShader(
        Shader::FromSource(
            "grid_shader",
            "Texture2D u_GridTexture : register(t0)",
        )
        .unwrap(),
    );
    library.AddShader(
        Shader::FromSource(
            "composite_shader",
            "cbuffer PSMaterialBuffer : register(b0) { float u_Exposure; }\n\
             Texture2D u_SceneTexture : register(t0)",
        )
        .unwrap(),
    );
    library.AddShader(
        Shader::FromSource(
            "fullscreen_quad_shader",
            "Texture2D u_SceneTexture : register(t0)",
        )
        .unwrap(),
    );
    library.AddShader(
        Shader::FromSource(
            "skybox_shader",
            "cbuffer VSMaterialBuffer : register(b0) { matrix u_InvViewProjMatrix; }\n\
             TextureCube u_EnvironmentMap : register(t0)",
        )
        .unwrap(),
    );
    library.AddComputeShader(ComputeShader::FromSource("environment_brdf", "").unwrap());
    library
}

fn quad_buffers(ids: &mut ResourceIds) -> (VertexBuffer, IndexBuffer) {
    let vb = VertexBuffer::Create(
        &VertexBufferDescription { VertexCount: 4, Stride: 56, Size: 224, Usage: BufferUsage::Default },
        ids,
    );
    let ib = IndexBuffer::Create(
        &IndexBufferDescription {
            IndexCount: 6,
            Size: 24,
            Format: IndexFormat::R32Uint,
            Usage: BufferUsage::Default,
        },
        ids,
    );
    (vb, ib)
}

#[test]
fn transparent_draws_sort_after_opaque_ones() {
    let mut ids = ResourceIds::new();
    let library = frame_library();
    let mut init_cb = CommandBuffer::Create();
    let renderer = Renderer::Initialize(&library, &mut ids, &mut init_cb);
    let mut scene = SceneRenderer::Create(false, &library, &renderer, &mut ids);

    let pbr = library.GetShader("mesh_pbr_shader").unwrap();
    let opaque = Material::Create("Opaque", pbr, MaterialFlags::empty(), 0);
    let transparent = Material::Create(
        "Transparent",
        pbr,
        MaterialFlags { two_sided: false, disable_depth_test: false, wireframe: false, transparent: true },
        0,
    );
    let materials = vec![opaque, transparent];

    let (vb, ib) = quad_buffers(&mut ids);
    let submeshes = vec![
        Submesh {
            Name: String::from("a"),
            VertexOffset: 0,
            VertexCount: 4,
            IndexOffset: 0,
            IndexCount: 6,
            MaterialIndex: 0,
        },
        Submesh {
            Name: String::from("b"),
            VertexOffset: 0,
            VertexCount: 4,
            IndexOffset: 0,
            IndexCount: 6,
            MaterialIndex: 1,
        },
    ];
    // Submesh zero uses the transparent material, submesh one the opaque
    // one, so submission order is transparent first.
    let mesh = Mesh::Create("TwoPart", vb, ib, submeshes, vec![1, 0]);
    scene.SubmitMesh(&mesh, mat4_identity(), &vec![]);
    assert_eq!(scene.draw_list.len(), 2);
    assert_eq!(scene.draw_list[0].material, 1);
    assert_eq!(scene.draw_list[1].material, 0);

    scene.PreRender(&materials);
    // After the stable partition the opaque draw precedes the transparent
    // one.
    assert_eq!(scene.draw_list.len(), 2);
    assert_eq!(scene.draw_list[0].material, 0);
    assert_eq!(scene.draw_list[1].material, 1);
    for i in 0..scene.draw_list.len() {
        for j in (i + 1)..scene.draw_list.len() {
            let ti = materials[scene.draw_list[i].material].IsTransparent();
            let tj = materials[scene.draw_list[j].material].IsTransparent();
            assert!(ti <= tj);
        }
    }
}

#[test]
fn flush_partitions_records_and_clears() {
    let mut ids = ResourceIds::new();
    let library = frame_library();
    let mut init_cb = CommandBuffer::Create();
    let renderer = Renderer::Initialize(&library, &mut ids, &mut init_cb);
    let mut scene = SceneRenderer::Create(false, &library, &renderer, &mut ids);

    let pbr = library.GetShader("mesh_pbr_shader").unwrap();
    let opaque = Material::Create("Opaque", pbr, MaterialFlags::empty(), 0);
    let transparent = Material::Create(
        "Transparent",
        pbr,
        MaterialFlags { two_sided: false, disable_depth_test: false, wireframe: false, transparent: true },
        0,
    );
    let materials = vec![opaque, transparent];

    let (vb, ib) = quad_buffers(&mut ids);
    let submeshes = vec![
        Submesh {
            Name: String::from("a"),
            VertexOffset: 0,
            VertexCount: 4,
            IndexOffset: 0,
            IndexCount: 6,
            MaterialIndex: 0,
        },
        Submesh {
            Name: String::from("b"),
            VertexOffset: 0,
            VertexCount: 4,
            IndexOffset: 0,
            IndexCount: 6,
            MaterialIndex: 1,
        },
    ];
    let mesh = Mesh::Create("TwoPart", vb, ib, submeshes, vec![1, 0]);
    scene.SubmitMesh(&mesh, mat4_identity(), &vec![]);

    let cmds = scene
        .Flush(
            &materials,
            &library,
            &renderer,
            &vec![],
            None,
            rusty_engine::render_target::Viewport { width: 1280, height: 720 },
        )
        .unwrap();
    assert!(scene.draw_list.is_empty());
    assert!(cmds.len() > 0);
    // Two scene draws, the skybox, the grid and the composite quad each end
    // in one indexed draw.
    let draw_count = cmds
        .iter()
        .filter(|c| matches!(c, Command::DrawIndexed { .. }))
        .count();
    assert_eq!(draw_count, 5);
}

#[test]
fn light_records_carry_exact_float_bit_patterns() {
    assert_eq!(F32_ONE_BITS, 1.0f32.to_bits());
    assert_eq!(F32_LINEAR_ATTENUATION_BITS, 0.08f32.to_bits());
    assert_eq!(rusty_engine::renderer::F32_POINT_THREE_BITS, 0.3f32.to_bits());
    let light = Light::CreateDirectionalLight(
        [1.0f32.to_bits(), 0.5f32.to_bits(), 0.25f32.to_bits()],
        2.0f32.to_bits(),
        [0, 0, 1.0f32.to_bits()],
    );
    assert_eq!(light.light_type, 0);
    assert_eq!(light.color[3], 1.0f32.to_bits());
    assert_eq!(light.const_attenuation, 1.0f32.to_bits());
    assert_eq!(light.linear_attenuation, 0.08f32.to_bits());
    let point = Light::CreatePointLight([0, 0, 0], 0, [0, 0, 0]);
    assert_eq!(point.light_type, 1);
    let spot = Light::CreateSpotLight([0, 0, 0], 0, [0, 0, 0], 0.5f32.to_bits());
    assert_eq!(spot.light_type, 2);
    assert_eq!(spot.cone_angle, 0.5f32.to_bits());
}

#[test]
fn transpose_rearranges_matrix_bits() {
    let mut m = Mat4Bits { m: [0; 16] };
    for i in 0..16 {
        m.m[i] = i as u32;
    }
    let t = rusty_engine::command::transpose_mat4(&m);
    for r in 0..4 {
        for c in 0..4 {
            assert_eq!(t.m[r * 4 + c], m.m[c * 4 + r]);
        }
    }
}
