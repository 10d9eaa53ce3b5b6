//! Shader reflection: layout packing, classification and rejection.

use rusty_engine::reflect::{ReflectShaderSource, ReflectComputeSource, ReflectError};
use rusty_engine::shader_types::{ShaderType, ShaderUniformType, ShaderResourceType};
use rusty_engine::shader_uniform::ConstantBufferDeclaration;

#[test]
fn reflect_single_ps_material_buffer() {
    let source = "cbuffer PSMaterialBuffer : register(b0) { float4 AlbedoColor; float Metalness; }";
    let refl = ReflectShaderSource(source).unwrap();
    assert!(refl.vs_material_buffer.is_none());
    assert_eq!(refl.vs_system_buffers.len(), 0);
    assert_eq!(refl.ps_system_buffers.len(), 0);
    let cb = refl.ps_material_buffer.as_ref().unwrap();
    assert_eq!(cb.name, "PSMaterialBuffer");
    assert_eq!(cb.register, 0);
    assert_eq!(cb.uniforms.len(), 2);
    assert_eq!(cb.uniforms[0].name, "AlbedoColor");
    assert_eq!(cb.uniforms[0].byte_offset, 0);
    assert_eq!(cb.uniforms[0].size, 16);
    assert!(matches!(cb.uniforms[0].utype, ShaderUniformType::Vec4));
    assert_eq!(cb.uniforms[1].name, "Metalness");
    assert_eq!(cb.uniforms[1].byte_offset, 16);
    assert_eq!(cb.uniforms[1].size, 4);
    assert!(matches!(cb.uniforms[1].utype, ShaderUniformType::Float));
    assert!(cb.is_finalized);
    assert_eq!(cb.size, 32);
}

#[test]
fn finalized_size_is_aligned_and_covers_raw_size() {
    let source = "cbuffer VSSystemBuffer : register(b0) { matrix Model; float3 Offset; }";
    let refl = ReflectShaderSource(source).unwrap();
    assert_eq!(refl.vs_system_buffers.len(), 1);
    let cb = &refl.vs_system_buffers[0];
    // Raw size 64 + 12 = 76, padded up to the next multiple of 16.
    assert_eq!(cb.size, 80);
    assert_eq!(cb.size % 16, 0);
    assert!(cb.size >= 76);
}

#[test]
fn offsets_are_cumulative_in_declaration_order() {
    let source = "cbuffer PSSystemBuffer : register(b1) { float A; float2 B; float3 C; float4 D; int E; }";
    let refl = ReflectShaderSource(source).unwrap();
    let cb = &refl.ps_system_buffers[0];
    let mut expected: u32 = 0;
    for u in cb.uniforms.iter() {
        assert_eq!(u.byte_offset, expected);
        expected += u.size;
    }
    assert_eq!(expected, 4 + 8 + 12 + 16 + 4);
}

#[test]
fn two_material_buffers_for_one_stage_fail() {
    let source = "cbuffer VSMaterialBuffer : register(b0) { float A; }\n\
                  cbuffer MyVSMaterialThing : register(b1) { float B; }";
    match ReflectShaderSource(source) {
        Err(e) => assert!(matches!(e, ReflectError::DuplicateMaterialBuffer)),
        Ok(_) => panic!("two material buffers for one stage must be rejected"),
    }
}

#[test]
fn unknown_uniform_type_fails() {
    let source = "cbuffer VSSystemBuffer : register(b0) { quaternion Q; }";
    match ReflectShaderSource(source) {
        Err(e) => assert!(matches!(e, ReflectError::UnknownUniformType)),
        Ok(_) => panic!("unknown type token must be rejected"),
    }
}

#[test]
fn unknown_buffer_signature_fails() {
    let source = "cbuffer SomeBuffer : register(b0) { float A; }";
    match ReflectShaderSource(source) {
        Err(e) => assert!(matches!(e, ReflectError::UnknownBufferName)),
        Ok(_) => panic!("unclassifiable buffer name must be rejected"),
    }
}

#[test]
fn oversized_register_fails() {
    let source = "cbuffer VSSystemBuffer : register(b99999999999) { float A; }";
    match ReflectShaderSource(source) {
        Err(e) => assert!(matches!(e, ReflectError::InvalidRegister)),
        Ok(_) => panic!("oversized register must be rejected"),
    }
}

#[test]
fn resources_split_into_system_and_material() {
    let source = "Texture2D u_AlbedoMap : register(t0)\n\
                  TextureCube sys_EnvironmentMap : register(t4)\n\
                  cbuffer PSMaterialBuffer : register(b0) { float A; }";
    let refl = ReflectShaderSource(source).unwrap();
    assert_eq!(refl.material_resources.len(), 1);
    assert_eq!(refl.material_resources[0].name, "u_AlbedoMap");
    assert_eq!(refl.material_resources[0].register, 0);
    assert!(matches!(refl.material_resources[0].rtype, ShaderResourceType::Texture2D));
    assert_eq!(refl.system_resources.len(), 1);
    assert_eq!(refl.system_resources[0].name, "sys_EnvironmentMap");
    assert_eq!(refl.system_resources[0].register, 4);
    assert!(matches!(refl.system_resources[0].rtype, ShaderResourceType::TextureCube));
}

#[test]
fn compute_reflection_collects_all_buffers_and_resources() {
    let source = "cbuffer Params : register(b0) { float u_Roughness; }\n\
                  RWTexture2DArray<float4> u_Output : register(u0)\n\
                  SamplerState u_Sampler : register(s0)";
    let refl = ReflectComputeSource(source).unwrap();
    assert_eq!(refl.buffers.len(), 1);
    assert!(matches!(refl.buffers[0].stage, ShaderType::CS));
    assert_eq!(refl.buffers[0].size, 16);
    assert_eq!(refl.resources.len(), 2);
    assert!(matches!(refl.resources[0].rtype, ShaderResourceType::RWTexture2DArray));
    assert!(matches!(refl.resources[1].rtype, ShaderResourceType::Sampler));
}

#[test]
fn uniform_type_mapping_and_sizes() {
    assert!(matches!(
        ShaderUniformType::ShaderUniformFromHLSLType("float4x4"),
        ShaderUniformType::Matrix
    ));
    assert!(matches!(
        ShaderUniformType::ShaderUniformFromHLSLType("bool"),
        ShaderUniformType::Bool
    ));
    assert!(matches!(
        ShaderUniformType::ShaderUniformFromHLSLType("half"),
        ShaderUniformType::Unknown
    ));
    assert_eq!(ShaderUniformType::ShaderTypeSize(ShaderUniformType::Matrix), 64);
    assert_eq!(ShaderUniformType::ShaderTypeSize(ShaderUniformType::Light), 800);
    assert!(matches!(
        ShaderResourceType::ShaderResourceFromHLSLResource("SamplerState"),
        ShaderResourceType::Sampler
    ));
}

#[test]
fn manual_layout_accumulates_offsets() {
    let mut cb = ConstantBufferDeclaration::Create("PSMaterialBuffer", 0, ShaderType::PS);
    let u0 = rusty_engine::shader_uniform::ShaderUniformDeclaration::Create(
        "A",
        ShaderUniformType::Vec3,
        cb.GetSize(),
        cb.GetRegister(),
        ShaderType::PS,
    );
    cb.AddUniform(u0);
    let u1 = rusty_engine::shader_uniform::ShaderUniformDeclaration::Create(
        "B",
        ShaderUniformType::Float,
        cb.GetSize(),
        cb.GetRegister(),
        ShaderType::PS,
    );
    cb.AddUniform(u1);
    assert_eq!(cb.GetSize(), 16);
    cb.Finalize();
    assert_eq!(cb.GetSize(), 16);
    let found = cb.FindUniform("B").unwrap();
    assert_eq!(found.byte_offset, 12);
    assert!(cb.FindUniform("C").is_none());
}
