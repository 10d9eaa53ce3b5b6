//! Materials: byte-exact uniform round trips, texture slots and render
//! states.

use rusty_engine::shader::Shader;
use rusty_engine::material::{Material, MaterialError};
use rusty_engine::states::{MaterialFlags, CullMode, FillMode};

fn pbr_shader() -> Shader {
    let source = "cbuffer PSMaterialBuffer : register(b0) { float4 AlbedoColor; float Metalness; }\n\
                  Texture2D u_AlbedoMap : register(t2)";
    Shader::FromSource("mesh_pbr_shader", source).unwrap()
}

#[test]
fn set_then_get_uniform_round_trips() {
    let shader = pbr_shader();
    let mut material = Material::Create("TestMaterial", &shader, MaterialFlags::empty(), 7);
    let value: f32 = 0.5;
    let bytes: Vec<u8> = value.to_le_bytes().to_vec();
    material.SetUniform("Metalness", &bytes).unwrap();
    let back = material.GetUniform("Metalness").unwrap();
    assert_eq!(back.len(), 4);
    let read = f32::from_le_bytes([back[0], back[1], back[2], back[3]]);
    assert_eq!(read, 0.5);
}

#[test]
fn round_trip_holds_for_many_values() {
    let shader = pbr_shader();
    let mut material = Material::Create("TestMaterial", &shader, MaterialFlags::empty(), 7);
    let values = [0.0f32, -1.5, 3.25, 1234.5678, f32::MIN, f32::MAX];
    for v in values.iter() {
        let bytes: Vec<u8> = v.to_le_bytes().to_vec();
        material.SetUniform("Metalness", &bytes).unwrap();
        let back = material.GetUniform("Metalness").unwrap();
        let read = f32::from_le_bytes([back[0], back[1], back[2], back[3]]);
        assert_eq!(read.to_bits(), v.to_bits());
    }
}

#[test]
fn neighbouring_uniforms_do_not_overlap() {
    let shader = pbr_shader();
    let mut material = Material::Create("TestMaterial", &shader, MaterialFlags::empty(), 7);
    let albedo: Vec<u8> = [1.0f32, 0.25, 0.5, 1.0]
        .iter()
        .flat_map(|v| v.to_le_bytes())
        .collect();
    material.SetUniform("AlbedoColor", &albedo).unwrap();
    let metalness: Vec<u8> = 0.75f32.to_le_bytes().to_vec();
    material.SetUniform("Metalness", &metalness).unwrap();
    let back = material.GetUniform("AlbedoColor").unwrap();
    assert_eq!(back, albedo);
}

#[test]
fn unknown_uniform_and_size_mismatch_are_rejected() {
    let shader = pbr_shader();
    let mut material = Material::Create("TestMaterial", &shader, MaterialFlags::empty(), 7);
    let bytes: Vec<u8> = vec![0; 4];
    assert!(matches!(
        material.SetUniform("Roughness", &bytes),
        Err(MaterialError::UniformNotFound)
    ));
    let wrong: Vec<u8> = vec![0; 8];
    assert!(matches!(
        material.SetUniform("Metalness", &wrong),
        Err(MaterialError::UniformSizeMismatch)
    ));
    assert!(matches!(
        material.GetUniform("Roughness"),
        Err(MaterialError::UniformNotFound)
    ));
}

#[test]
fn texture_slots_follow_declared_registers() {
    let shader = pbr_shader();
    let mut material = Material::Create("TestMaterial", &shader, MaterialFlags::empty(), 7);
    // Highest declared material register is 2, so three slots exist, all
    // holding the default texture.
    assert_eq!(material.GetTextures().len(), 3);
    assert!(material.GetTextures().iter().all(|t| *t == 7));
    material.SetTexture("u_AlbedoMap", 42).unwrap();
    assert_eq!(material.GetTextures()[2], 42);
    assert!(matches!(
        material.SetTexture("u_NormalMap", 43),
        Err(MaterialError::ResourceNotFound)
    ));
}

#[test]
fn render_states_follow_flags() {
    let shader = pbr_shader();
    let mut material = Material::Create("TestMaterial", &shader, MaterialFlags::empty(), 7);
    assert!(matches!(material.GetRasterizerState().cull_mode, CullMode::Back));
    assert!(matches!(material.GetRasterizerState().fill_mode, FillMode::Solid));
    assert!(!material.GetBlendState().blend_enable);
    assert!(material.GetDepthState().depth_enable);
    material.SetRenderFlags(MaterialFlags {
        two_sided: true,
        disable_depth_test: true,
        wireframe: true,
        transparent: true,
    });
    assert!(matches!(material.GetRasterizerState().cull_mode, CullMode::NoCulling));
    assert!(matches!(material.GetRasterizerState().fill_mode, FillMode::Wireframe));
    assert!(material.GetBlendState().blend_enable);
    assert!(!material.GetDepthState().depth_enable);
    assert!(material.IsTransparent());
}
