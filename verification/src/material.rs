//! Materials: an instance of a shader with raw byte buffers for the
//! per-stage material constant buffers, a texture slot per declared resource
//! register, render flags, and the render-state descriptors the flags call
//! for.  Uniforms are read and written as bytes at the reflected offsets; a
//! write and a read of the same declared uniform round-trip exactly.

use vstd::prelude::*;
use vstd::pervasive::VecAdditionalExecFns;
use crate::shader_types::{ShaderType, str_eq};
use crate::shader_uniform::{
    ShaderUniformDeclaration, spec_find_uniform, lemma_cb_uniform_fits,
};
use crate::shader_resource::{ShaderResourceDeclaration, spec_find_resource};
use crate::shader::Shader;
use crate::states::{
    MaterialFlags, RasterizerDesc, BlendDesc, DepthStencilDesc, CullMode, FillMode,
    ComparisonFunc, DepthWriteMask, BlendFactor, BlendOp, StencilOp, StencilFaceDesc,
    spec_rasterizer_for, spec_blend_for, spec_depth_for,
};

verus! {

/// Why a material operation rejected its arguments.
#[derive(Clone, Copy, Debug, PartialEq, Eq, Structural)]
pub enum MaterialError {
    /// No declared uniform has the given name.
    UniformNotFound,
    /// The supplied value's byte size differs from the declared size.
    UniformSizeMismatch,
    /// No declared resource has the given name.
    ResourceNotFound,
}

/// `buf` with `data` written at offset `off`.
pub open spec fn spec_write_bytes(buf: Seq<u8>, off: int, data: Seq<u8>) -> Seq<u8> {
    Seq::new(
        buf.len(),
        |i: int|
            if off <= i < off + data.len() {
                data[i - off]
            } else {
                buf[i]
            },
    )
}

/// Highest register among the declared resources, or zero for none.
pub open spec fn spec_highest_register(rs: Seq<ShaderResourceDeclaration>) -> int
    decreases rs.len(),
{
    if rs.len() == 0 {
        0
    } else {
        let rest = spec_highest_register(rs.drop_last());
        if rs.last().register > rest {
            rs.last().register as int
        } else {
            rest
        }
    }
}

/// A material: shader instance state owned by whoever draws with it.
pub struct Material {
    pub name: String,
    pub shader_name: String,
    pub flags: MaterialFlags,
    pub uniforms: Vec<ShaderUniformDeclaration>,
    pub resources: Vec<ShaderResourceDeclaration>,
    pub vs_uniform_buffer: Vec<u8>,
    pub ps_uniform_buffer: Vec<u8>,
    pub vs_buffer_register: Option<u32>,
    pub ps_buffer_register: Option<u32>,
    pub textures: Vec<u64>,
    pub rasterizer_state: RasterizerDesc,
    pub blend_state: BlendDesc,
    pub depth_state: DepthStencilDesc,
}

/// What reading a uniform of the material denotes: the declared size's bytes
/// at the declared offset of the declared stage's buffer.
pub open spec fn spec_get_uniform(m: Material, name: Seq<char>) -> Result<Seq<u8>, MaterialError> {
    match spec_find_uniform(m.uniforms@, name) {
        None => Err(MaterialError::UniformNotFound),
        Some(u) => Ok(
            (if u.stage == ShaderType::VS {
                m.vs_uniform_buffer@
            } else {
                m.ps_uniform_buffer@
            }).subrange(u.byte_offset as int, u.byte_offset + u.size),
        ),
    }
}

impl Material {
    /// Every declared uniform addresses bytes inside its stage's buffer,
    /// every declared resource has a texture slot, and the render-state
    /// descriptors are the ones the flags call for.
    pub open spec fn wf(self) -> bool {
        &&& forall|i: int|
            0 <= i < self.uniforms@.len() ==> {
                let u = #[trigger] self.uniforms@[i];
                &&& (u.stage == ShaderType::VS || u.stage == ShaderType::PS)
                &&& (u.stage == ShaderType::VS ==> u.byte_offset + u.size
                    <= self.vs_uniform_buffer@.len())
                &&& (u.stage == ShaderType::PS ==> u.byte_offset + u.size
                    <= self.ps_uniform_buffer@.len())
            }
        &&& forall|i: int|
            0 <= i < self.resources@.len() ==> (#[trigger] self.resources@[i]).register
                < self.textures@.len()
        &&& self.rasterizer_state == spec_rasterizer_for(self.flags)
        &&& self.blend_state == spec_blend_for(self.flags)
        &&& self.depth_state == spec_depth_for(self.flags)
    }

    /// Builds a material over a shader: zeroed byte buffers sized to the
    /// shader's material constant buffers, the material uniforms of both
    /// stages in declaration order (vertex stage first), a texture slot for
    /// every declared resource register filled with the default texture, and
    /// render states derived from the flags.
    pub fn Create(name: &str, shader: &Shader, flags: MaterialFlags, default_texture: u64) -> (r:
        Material)
        requires
            shader.wf(),
        ensures
            r.wf(),
            r.name@ == name@,
            r.shader_name@ == shader.name@,
            r.flags == flags,
            r.uniforms@ == (match shader.reflection.vs_material_buffer {
                Some(cb) => cb.uniforms@,
                None => Seq::<ShaderUniformDeclaration>::empty(),
            }) + (match shader.reflection.ps_material_buffer {
                Some(cb) => cb.uniforms@,
                None => Seq::<ShaderUniformDeclaration>::empty(),
            }),
            r.resources@ == shader.reflection.material_resources@,
            r.vs_uniform_buffer@.len() == (match shader.reflection.vs_material_buffer {
                Some(cb) => cb.size as int,
                None => 0,
            }),
            r.ps_uniform_buffer@.len() == (match shader.reflection.ps_material_buffer {
                Some(cb) => cb.size as int,
                None => 0,
            }),
            forall|i: int|
                0 <= i < r.vs_uniform_buffer@.len() ==> r.vs_uniform_buffer@[i] == 0u8,
            forall|i: int|
                0 <= i < r.ps_uniform_buffer@.len() ==> r.ps_uniform_buffer@[i] == 0u8,
            r.vs_buffer_register == (match shader.reflection.vs_material_buffer {
                Some(cb) => Some(cb.register),
                None => None::<u32>,
            }),
            r.ps_buffer_register == (match shader.reflection.ps_material_buffer {
                Some(cb) => Some(cb.register),
                None => None::<u32>,
            }),
            r.textures@.len() == spec_highest_register(shader.reflection.material_resources@) + 1,
            forall|i: int| 0 <= i < r.textures@.len() ==> r.textures@[i] == default_texture,
            r.rasterizer_state == spec_rasterizer_for(flags),
            r.blend_state == spec_blend_for(flags),
            r.depth_state == spec_depth_for(flags),
    {
        let mut uniforms: Vec<ShaderUniformDeclaration> = Vec::new();
        let mut vs_uniform_buffer: Vec<u8> = Vec::new();
        let mut ps_uniform_buffer: Vec<u8> = Vec::new();
        let mut vs_buffer_register: Option<u32> = None;
        let mut ps_buffer_register: Option<u32> = None;

        let ghost vs_part: Seq<ShaderUniformDeclaration> =
            match &shader.reflection.vs_material_buffer {
            Some(cb) => cb.uniforms@,
            None => Seq::empty(),
        };
        let ghost ps_part: Seq<ShaderUniformDeclaration> =
            match &shader.reflection.ps_material_buffer {
            Some(cb) => cb.uniforms@,
            None => Seq::empty(),
        };

        match shader.GetVSMaterialConstantBuffer() {
            Some(cb) => {
                let size = cb.GetSize();
                vs_uniform_buffer = zero_bytes(size as usize);
                vs_buffer_register = Some(cb.GetRegister());
                let n = cb.uniforms.len();
                let mut i: usize = 0;
                while i < n
                    invariant
                        shader.wf(),
                        shader.reflection.vs_material_buffer matches Some(c) && c == *cb,
                        n == cb.uniforms@.len(),
                        i <= n,
                        size == cb.size,
                        uniforms@ == cb.uniforms@.take(i as int),
                        forall|j: int|
                            0 <= j < uniforms@.len() ==> {
                                let u = #[trigger] uniforms@[j];
                                u.stage == ShaderType::VS && u.byte_offset + u.size <= size
                            },
                    decreases n - i,
                {
                    proof {
                        lemma_cb_uniform_fits(*cb, i as int);
                        assert(cb.deep_view().uniforms[i as int] == cb.uniforms@[i as int].deep_view());
                        assert(cb.uniforms@.take(i as int + 1) =~= cb.uniforms@.take(
                            i as int,
                        ).push(cb.uniforms@[i as int]));
                    }
                    uniforms.push(cb.uniforms[i].Duplicate());
                    i = i + 1;
                }
                proof {
                    assert(cb.uniforms@.take(n as int) =~= cb.uniforms@);
                }
            },
            None => {},
        }
        let ghost n_vs = uniforms@.len();
        let ghost vs_len = vs_uniform_buffer@.len();

        match shader.GetPSMaterialConstantBuffer() {
            Some(cb) => {
                let size = cb.GetSize();
                ps_uniform_buffer = zero_bytes(size as usize);
                ps_buffer_register = Some(cb.GetRegister());
                let n = cb.uniforms.len();
                let mut i: usize = 0;
                while i < n
                    invariant
                        shader.wf(),
                        shader.reflection.ps_material_buffer matches Some(c) && c == *cb,
                        n == cb.uniforms@.len(),
                        i <= n,
                        size == cb.size,
                        uniforms@ == vs_part + cb.uniforms@.take(i as int),
                        vs_part.len() == n_vs,
                        vs_uniform_buffer@.len() == vs_len,
                        forall|j: int|
                            n_vs <= j < uniforms@.len() ==> {
                                let u = #[trigger] uniforms@[j];
                                u.stage == ShaderType::PS && u.byte_offset + u.size <= size
                            },
                        forall|j: int|
                            0 <= j < n_vs ==> {
                                let u = #[trigger] uniforms@[j];
                                u.stage == ShaderType::VS && u.byte_offset + u.size <= vs_len
                            },
                    decreases n - i,
                {
                    proof {
                        lemma_cb_uniform_fits(*cb, i as int);
                        assert(cb.deep_view().uniforms[i as int] == cb.uniforms@[i as int].deep_view());
                        assert(vs_part + cb.uniforms@.take(i as int + 1) =~= (vs_part
                            + cb.uniforms@.take(i as int)).push(cb.uniforms@[i as int]));
                    }
                    uniforms.push(cb.uniforms[i].Duplicate());
                    i = i + 1;
                }
                proof {
                    assert(cb.uniforms@.take(n as int) =~= cb.uniforms@);
                }
            },
            None => {},
        }
        proof {
            assert(uniforms@ =~= vs_part + ps_part) by {
                if shader.reflection.ps_material_buffer is None {
                    assert(uniforms@ == vs_part + Seq::<ShaderUniformDeclaration>::empty());
                }
            }
        }

        let mut resources: Vec<ShaderResourceDeclaration> = Vec::new();
        let mut highest: u32 = 0;
        let src = shader.GetMaterialResources();
        let nr = src.len();
        let mut k: usize = 0;
        proof {
            assert(src@.take(0) =~= Seq::<ShaderResourceDeclaration>::empty());
        }
        while k < nr
            invariant
                nr == src@.len(),
                k <= nr,
                resources@ == src@.take(k as int),
                highest as int == spec_highest_register(src@.take(k as int)),
                forall|j: int|
                    0 <= j < k ==> (#[trigger] src@[j]).register <= highest,
            decreases nr - k,
        {
            proof {
                assert(src@.take(k as int + 1).drop_last() =~= src@.take(k as int));
                assert(src@.take(k as int + 1).last() == src@[k as int]);
            }
            let reg = src[k].GetRegister();
            if reg > highest {
                highest = reg;
            }
            resources.push(src[k].Duplicate());
            proof {
                assert(resources@ =~= src@.take(k as int + 1));
            }
            k = k + 1;
        }
        proof {
            assert(src@.take(nr as int) =~= src@);
        }

        let mut textures: Vec<u64> = Vec::new();
        let count: u64 = highest as u64 + 1;
        let mut t: u64 = 0;
        while t < count
            invariant
                t <= count,
                textures@.len() == t,
                forall|j: int| 0 <= j < textures@.len() ==> textures@[j] == default_texture,
            decreases count - t,
        {
            textures.push(default_texture);
            t = t + 1;
        }

        let face = StencilFaceDesc {
            stencil_func: ComparisonFunc::Always,
            stencil_fail_op: StencilOp::Keep,
            stencil_pass_op: StencilOp::IncrSat,
            stencil_depth_fail_op: StencilOp::Keep,
        };
        let mut material = Material {
            name: name.to_owned(),
            shader_name: shader.GetName().clone(),
            flags,
            uniforms,
            resources,
            vs_uniform_buffer,
            ps_uniform_buffer,
            vs_buffer_register,
            ps_buffer_register,
            textures,
            rasterizer_state: RasterizerDesc {
                cull_mode: CullMode::Back,
                fill_mode: FillMode::Solid,
                front_counter_clockwise: true,
                depth_clip_enable: true,
                antialiased_line_enable: false,
                multisample_enable: false,
                scissor_enable: false,
                depth_bias: 0,
            },
            blend_state: BlendDesc {
                alpha_to_coverage: false,
                independent_blend: false,
                blend_enable: false,
                src_blend: BlendFactor::One,
                dest_blend: BlendFactor::Zero,
                blend_op: BlendOp::Add,
                src_blend_alpha: BlendFactor::One,
                dest_blend_alpha: BlendFactor::Zero,
                blend_op_alpha: BlendOp::Add,
                write_mask_all: true,
            },
            depth_state: DepthStencilDesc {
                depth_enable: true,
                depth_func: ComparisonFunc::LessEqual,
                depth_write_mask: DepthWriteMask::All,
                stencil_enable: true,
                stencil_read_mask: 0xff,
                stencil_write_mask: 0xff,
                front_face: face,
                back_face: face,
            },
        };
        material.RecreateStates();
        material
    }

    /// Index of the first declared uniform with the given name.
    fn find_uniform_index(&self, name: &str) -> (r: Option<usize>)
        ensures
            match r {
                Some(i) => i < self.uniforms@.len() && spec_find_uniform(self.uniforms@, name@)
                    == Some(self.uniforms@[i as int]),
                None => spec_find_uniform(self.uniforms@, name@) is None,
            },
    {
        let n = self.uniforms.len();
        let mut i: usize = 0;
        proof {
            assert(self.uniforms@.skip(0) =~= self.uniforms@);
        }
        while i < n
            invariant
                n == self.uniforms@.len(),
                i <= n,
                spec_find_uniform(self.uniforms@, name@) == spec_find_uniform(
                    self.uniforms@.skip(i as int),
                    name@,
                ),
            decreases n - i,
        {
            proof {
                assert(self.uniforms@.skip(i as int)[0] == self.uniforms@[i as int]);
                assert(self.uniforms@.skip(i as int).drop_first() =~= self.uniforms@.skip(
                    i as int + 1,
                ));
            }
            if str_eq(self.uniforms[i].name.as_str(), name) {
                return Some(i);
            }
            i = i + 1;
        }
        proof {
            assert(self.uniforms@.skip(n as int) =~= Seq::<ShaderUniformDeclaration>::empty());
        }
        None
    }

    /// Index of the first declared resource with the given name.
    fn find_resource_index(&self, name: &str) -> (r: Option<usize>)
        ensures
            match r {
                Some(i) => i < self.resources@.len() && spec_find_resource(self.resources@, name@)
                    == Some(self.resources@[i as int]),
                None => spec_find_resource(self.resources@, name@) is None,
            },
    {
        let n = self.resources.len();
        let mut i: usize = 0;
        proof {
            assert(self.resources@.skip(0) =~= self.resources@);
        }
        while i < n
            invariant
                n == self.resources@.len(),
                i <= n,
                spec_find_resource(self.resources@, name@) == spec_find_resource(
                    self.resources@.skip(i as int),
                    name@,
                ),
            decreases n - i,
        {
            proof {
                assert(self.resources@.skip(i as int)[0] == self.resources@[i as int]);
                assert(self.resources@.skip(i as int).drop_first() =~= self.resources@.skip(
                    i as int + 1,
                ));
            }
            if str_eq(self.resources[i].name.as_str(), name) {
                return Some(i);
            }
            i = i + 1;
        }
        proof {
            assert(self.resources@.skip(n as int) =~= Seq::<ShaderResourceDeclaration>::empty());
        }
        None
    }

    /// Writes a value's bytes at the declared offset of the named uniform's
    /// stage buffer.  Fails exactly when no uniform has that name or the
    /// value's size differs from the declared size.
    pub fn SetUniform(&mut self, name: &str, data: &Vec<u8>) -> (r: Result<(), MaterialError>)
        requires
            old(self).wf(),
        ensures
            final(self).wf(),
            final(self).name == old(self).name,
            final(self).shader_name == old(self).shader_name,
            final(self).flags == old(self).flags,
            final(self).uniforms == old(self).uniforms,
            final(self).resources == old(self).resources,
            final(self).vs_buffer_register == old(self).vs_buffer_register,
            final(self).ps_buffer_register == old(self).ps_buffer_register,
            final(self).textures == old(self).textures,
            final(self).rasterizer_state == old(self).rasterizer_state,
            final(self).blend_state == old(self).blend_state,
            final(self).depth_state == old(self).depth_state,
            match spec_find_uniform(old(self).uniforms@, name@) {
                None => r == Err::<(), MaterialError>(MaterialError::UniformNotFound) && final(self).vs_uniform_buffer == old(self).vs_uniform_buffer && final(self).ps_uniform_buffer == old(self).ps_uniform_buffer,
                Some(u) => if data@.len() != u.size {
                    r == Err::<(), MaterialError>(MaterialError::UniformSizeMismatch) && final(self).vs_uniform_buffer == old(self).vs_uniform_buffer && final(self).ps_uniform_buffer == old(self).ps_uniform_buffer
                } else {
                    r == Ok::<(), MaterialError>(()) && (u.stage == ShaderType::VS ==> final(self).vs_uniform_buffer@ == spec_write_bytes(
                        old(self).vs_uniform_buffer@,
                        u.byte_offset as int,
                        data@,
                    ) && final(self).ps_uniform_buffer == old(self).ps_uniform_buffer) && (
                    u.stage == ShaderType::PS ==> final(self).ps_uniform_buffer@
                        == spec_write_bytes(
                        old(self).ps_uniform_buffer@,
                        u.byte_offset as int,
                        data@,
                    ) && final(self).vs_uniform_buffer == old(self).vs_uniform_buffer)
                },
            },
    {
        let idx = match self.find_uniform_index(name) {
            Some(i) => i,
            None => {
                return Err(MaterialError::UniformNotFound);
            },
        };
        let size = self.uniforms[idx].size;
        let offset = self.uniforms[idx].byte_offset;
        let stage = self.uniforms[idx].stage;
        if data.len() != size as usize {
            return Err(MaterialError::UniformSizeMismatch);
        }
        let m = data.len();
        if matches!(stage, ShaderType::VS) {
            let ghost buf0 = self.vs_uniform_buffer@;
            let mut j: usize = 0;
            while j < m
                invariant
                    m == data@.len(),
                    j <= m,
                    offset + m <= buf0.len(),
                    buf0 == old(self).vs_uniform_buffer@,
                    self.ps_uniform_buffer == old(self).ps_uniform_buffer,
                    self.name == old(self).name,
                    self.shader_name == old(self).shader_name,
                    self.flags == old(self).flags,
                    self.uniforms == old(self).uniforms,
                    self.resources == old(self).resources,
                    self.vs_buffer_register == old(self).vs_buffer_register,
                    self.ps_buffer_register == old(self).ps_buffer_register,
                    self.textures == old(self).textures,
                    self.rasterizer_state == old(self).rasterizer_state,
                    self.blend_state == old(self).blend_state,
                    self.depth_state == old(self).depth_state,
                    self.vs_uniform_buffer@.len() == buf0.len(),
                    forall|x: int|
                        0 <= x < buf0.len() && !(offset <= x < offset + j)
                            ==> self.vs_uniform_buffer@[x] == buf0[x],
                    forall|x: int|
                        offset <= x < offset + j ==> self.vs_uniform_buffer@[x] == data@[x
                            - offset],
                decreases m - j,
            {
                let blen = self.vs_uniform_buffer.len();
                proof {
                    assert(offset + j < blen);
                }
                self.vs_uniform_buffer.set(offset as usize + j, data[j]);
                j = j + 1;
            }
            proof {
                assert(self.vs_uniform_buffer@ =~= spec_write_bytes(
                    buf0,
                    offset as int,
                    data@,
                ));
            }
        } else if matches!(stage, ShaderType::PS) {
            let ghost buf0 = self.ps_uniform_buffer@;
            let mut j: usize = 0;
            while j < m
                invariant
                    m == data@.len(),
                    j <= m,
                    offset + m <= buf0.len(),
                    buf0 == old(self).ps_uniform_buffer@,
                    self.vs_uniform_buffer == old(self).vs_uniform_buffer,
                    self.name == old(self).name,
                    self.shader_name == old(self).shader_name,
                    self.flags == old(self).flags,
                    self.uniforms == old(self).uniforms,
                    self.resources == old(self).resources,
                    self.vs_buffer_register == old(self).vs_buffer_register,
                    self.ps_buffer_register == old(self).ps_buffer_register,
                    self.textures == old(self).textures,
                    self.rasterizer_state == old(self).rasterizer_state,
                    self.blend_state == old(self).blend_state,
                    self.depth_state == old(self).depth_state,
                    self.ps_uniform_buffer@.len() == buf0.len(),
                    forall|x: int|
                        0 <= x < buf0.len() && !(offset <= x < offset + j)
                            ==> self.ps_uniform_buffer@[x] == buf0[x],
                    forall|x: int|
                        offset <= x < offset + j ==> self.ps_uniform_buffer@[x] == data@[x
                            - offset],
                decreases m - j,
            {
                let blen = self.ps_uniform_buffer.len();
                proof {
                    assert(offset + j < blen);
                }
                self.ps_uniform_buffer.set(offset as usize + j, data[j]);
                j = j + 1;
            }
            proof {
                assert(self.ps_uniform_buffer@ =~= spec_write_bytes(
                    buf0,
                    offset as int,
                    data@,
                ));
            }
        }
        Ok(())
    }

    /// Reads the named uniform's declared bytes back from its stage buffer.
    /// Fails exactly when no uniform has that name.
    pub fn GetUniform(&self, name: &str) -> (r: Result<Vec<u8>, MaterialError>)
        requires
            self.wf(),
        ensures
            match spec_get_uniform(*self, name@) {
                Ok(bytes) => r matches Ok(b) && b@ == bytes,
                Err(e) => r matches Err(e2) && e2 == e,
            },
    {
        let idx = match self.find_uniform_index(name) {
            Some(i) => i,
            None => {
                return Err(MaterialError::UniformNotFound);
            },
        };
        let size = self.uniforms[idx].size;
        let offset = self.uniforms[idx].byte_offset;
        let stage = self.uniforms[idx].stage;
        let mut out: Vec<u8> = Vec::new();
        let m = size as usize;
        if matches!(stage, ShaderType::VS) {
            let mut j: usize = 0;
            while j < m
                invariant
                    j <= m,
                    offset + m <= self.vs_uniform_buffer@.len(),
                    out@.len() == j,
                    forall|x: int| 0 <= x < j ==> out@[x] == self.vs_uniform_buffer@[offset + x],
                decreases m - j,
            {
                let blen = self.vs_uniform_buffer.len();
                proof {
                    assert(offset + j < blen);
                }
                out.push(self.vs_uniform_buffer[offset as usize + j]);
                j = j + 1;
            }
            proof {
                assert(out@ =~= self.vs_uniform_buffer@.subrange(
                    offset as int,
                    offset + size,
                ));
            }
        } else {
            let mut j: usize = 0;
            while j < m
                invariant
                    j <= m,
                    offset + m <= self.ps_uniform_buffer@.len(),
                    out@.len() == j,
                    forall|x: int| 0 <= x < j ==> out@[x] == self.ps_uniform_buffer@[offset + x],
                decreases m - j,
            {
                let blen = self.ps_uniform_buffer.len();
                proof {
                    assert(offset + j < blen);
                }
                out.push(self.ps_uniform_buffer[offset as usize + j]);
                j = j + 1;
            }
            proof {
                assert(out@ =~= self.ps_uniform_buffer@.subrange(
                    offset as int,
                    offset + size,
                ));
            }
        }
        Ok(out)
    }

    /// Stores a texture handle in the named resource's register slot.  Fails
    /// exactly when no resource has that name.
    pub fn SetTexture(&mut self, name: &str, texture: u64) -> (r: Result<(), MaterialError>)
        requires
            old(self).wf(),
        ensures
            final(self).wf(),
            final(self).name == old(self).name,
            final(self).shader_name == old(self).shader_name,
            final(self).flags == old(self).flags,
            final(self).uniforms == old(self).uniforms,
            final(self).resources == old(self).resources,
            final(self).vs_uniform_buffer == old(self).vs_uniform_buffer,
            final(self).ps_uniform_buffer == old(self).ps_uniform_buffer,
            final(self).vs_buffer_register == old(self).vs_buffer_register,
            final(self).ps_buffer_register == old(self).ps_buffer_register,
            final(self).rasterizer_state == old(self).rasterizer_state,
            final(self).blend_state == old(self).blend_state,
            final(self).depth_state == old(self).depth_state,
            match spec_find_resource(old(self).resources@, name@) {
                None => r == Err::<(), MaterialError>(MaterialError::ResourceNotFound) && final(self).textures == old(self).textures,
                Some(res) => r == Ok::<(), MaterialError>(()) && final(self).textures@ == old(self).textures@.update(res.register as int, texture),
            },
    {
        let idx = match self.find_resource_index(name) {
            Some(i) => i,
            None => {
                return Err(MaterialError::ResourceNotFound);
            },
        };
        let register = self.resources[idx].register;
        self.textures.set(register as usize, texture);
        Ok(())
    }

    /// Renames the material.
    pub fn SetName(&mut self, name: &str)
        ensures
            final(self).name@ == name@,
            *final(self) == (Material { name: final(self).name, ..*old(self) }),
    {
        self.name = name.to_owned();
    }

    /// Replaces the render flags; the state descriptors are recomputed when
    /// the flags actually change.
    pub fn SetRenderFlags(&mut self, flags: MaterialFlags)
        requires
            old(self).wf(),
        ensures
            final(self).wf(),
            final(self).flags == flags,
            final(self).rasterizer_state == spec_rasterizer_for(flags),
            final(self).blend_state == spec_blend_for(flags),
            final(self).depth_state == spec_depth_for(flags),
            final(self).name == old(self).name,
            final(self).shader_name == old(self).shader_name,
            final(self).uniforms == old(self).uniforms,
            final(self).resources == old(self).resources,
            final(self).vs_uniform_buffer == old(self).vs_uniform_buffer,
            final(self).ps_uniform_buffer == old(self).ps_uniform_buffer,
            final(self).vs_buffer_register == old(self).vs_buffer_register,
            final(self).ps_buffer_register == old(self).ps_buffer_register,
            final(self).textures == old(self).textures,
    {
        if !(self.flags == flags) {
            self.flags = flags;
            self.RecreateStates();
        }
    }

    /// Recomputes the rasterizer, blend and depth-stencil descriptors from
    /// the current flags.
    fn RecreateStates(&mut self)
        ensures
            final(self).rasterizer_state == spec_rasterizer_for(old(self).flags),
            final(self).blend_state == spec_blend_for(old(self).flags),
            final(self).depth_state == spec_depth_for(old(self).flags),
            final(self).name == old(self).name,
            final(self).shader_name == old(self).shader_name,
            final(self).flags == old(self).flags,
            final(self).uniforms == old(self).uniforms,
            final(self).resources == old(self).resources,
            final(self).vs_uniform_buffer == old(self).vs_uniform_buffer,
            final(self).ps_uniform_buffer == old(self).ps_uniform_buffer,
            final(self).vs_buffer_register == old(self).vs_buffer_register,
            final(self).ps_buffer_register == old(self).ps_buffer_register,
            final(self).textures == old(self).textures,
    {
        let is_depth_tested = !self.flags.disable_depth_test;
        let is_two_sided = self.flags.two_sided;
        let is_wireframe = self.flags.wireframe;
        let is_transparent = self.flags.transparent;

        self.rasterizer_state = RasterizerDesc {
            cull_mode: if is_two_sided {
                CullMode::NoCulling
            } else {
                CullMode::Back
            },
            fill_mode: if is_wireframe {
                FillMode::Wireframe
            } else {
                FillMode::Solid
            },
            front_counter_clockwise: true,
            depth_clip_enable: true,
            antialiased_line_enable: false,
            multisample_enable: false,
            scissor_enable: false,
            depth_bias: 0,
        };

        if is_transparent {
            self.blend_state = BlendDesc {
                alpha_to_coverage: false,
                independent_blend: false,
                blend_enable: true,
                src_blend: BlendFactor::SrcAlpha,
                dest_blend: BlendFactor::InvSrcAlpha,
                blend_op: BlendOp::Add,
                src_blend_alpha: BlendFactor::SrcAlpha,
                dest_blend_alpha: BlendFactor::InvSrcAlpha,
                blend_op_alpha: BlendOp::Add,
                write_mask_all: true,
            };
        } else {
            self.blend_state = BlendDesc {
                alpha_to_coverage: false,
                independent_blend: false,
                blend_enable: false,
                src_blend: BlendFactor::One,
                dest_blend: BlendFactor::Zero,
                blend_op: BlendOp::Add,
                src_blend_alpha: BlendFactor::One,
                dest_blend_alpha: BlendFactor::Zero,
                blend_op_alpha: BlendOp::Add,
                write_mask_all: true,
            };
        }

        let face = StencilFaceDesc {
            stencil_func: ComparisonFunc::Always,
            stencil_fail_op: StencilOp::Keep,
            stencil_pass_op: StencilOp::IncrSat,
            stencil_depth_fail_op: StencilOp::Keep,
        };
        if is_depth_tested {
            self.depth_state = DepthStencilDesc {
                depth_enable: true,
                depth_func: ComparisonFunc::LessEqual,
                depth_write_mask: DepthWriteMask::All,
                stencil_enable: true,
                stencil_read_mask: 0xff,
                stencil_write_mask: 0xff,
                front_face: face,
                back_face: face,
            };
        } else {
            self.depth_state = DepthStencilDesc {
                depth_enable: false,
                depth_func: ComparisonFunc::Always,
                depth_write_mask: DepthWriteMask::Zero,
                stencil_enable: true,
                stencil_read_mask: 0xff,
                stencil_write_mask: 0xff,
                front_face: face,
                back_face: face,
            };
        }
    }

    pub fn GetRenderFlags(&self) -> (r: MaterialFlags)
        ensures
            r == self.flags,
    {
        self.flags
    }

    pub fn GetName(&self) -> (r: &String)
        ensures
            r == &self.name,
    {
        &self.name
    }

    pub fn GetShaderName(&self) -> (r: &String)
        ensures
            r == &self.shader_name,
    {
        &self.shader_name
    }

    pub fn GetUniforms(&self) -> (r: &Vec<ShaderUniformDeclaration>)
        ensures
            r == &self.uniforms,
    {
        &self.uniforms
    }

    pub fn GetResources(&self) -> (r: &Vec<ShaderResourceDeclaration>)
        ensures
            r == &self.resources,
    {
        &self.resources
    }

    pub fn GetVSUniformBuffer(&self) -> (r: &Vec<u8>)
        ensures
            r == &self.vs_uniform_buffer,
    {
        &self.vs_uniform_buffer
    }

    pub fn GetPSUniformBuffer(&self) -> (r: &Vec<u8>)
        ensures
            r == &self.ps_uniform_buffer,
    {
        &self.ps_uniform_buffer
    }

    pub fn GetTextures(&self) -> (r: &Vec<u64>)
        ensures
            r == &self.textures,
    {
        &self.textures
    }

    pub fn GetRasterizerState(&self) -> (r: &RasterizerDesc)
        ensures
            r == &self.rasterizer_state,
    {
        &self.rasterizer_state
    }

    pub fn GetBlendState(&self) -> (r: &BlendDesc)
        ensures
            r == &self.blend_state,
    {
        &self.blend_state
    }

    pub fn GetDepthState(&self) -> (r: &DepthStencilDesc)
        ensures
            r == &self.depth_state,
    {
        &self.depth_state
    }

    /// Whether the material's transparent flag is set: the key PreRender
    /// sorts the draw list by.
    pub fn IsTransparent(&self) -> (r: bool)
        ensures
            r == self.flags.transparent,
    {
        self.flags.transparent
    }
}

/// A zero-filled byte vector of the given length.
fn zero_bytes(n: usize) -> (r: Vec<u8>)
    ensures
        r@.len() == n,
        forall|i: int| 0 <= i < n ==> r@[i] == 0u8,
{
    let mut v: Vec<u8> = Vec::new();
    let mut i: usize = 0;
    while i < n
        invariant
            i <= n,
            v@.len() == i,
            forall|j: int| 0 <= j < i ==> v@[j] == 0u8,
        decreases n - i,
    {
        v.push(0u8);
        i = i + 1;
    }
    v
}

/// Round-trip law: after a successful write of a declared uniform, reading
/// the same name returns exactly the bytes written.
pub proof fn lemma_set_get_round_trip(pre: Material, post: Material, name: Seq<char>, data: Seq<
    u8,
>)
    requires
        pre.wf(),
        spec_find_uniform(pre.uniforms@, name) is Some,
        data.len() == spec_find_uniform(pre.uniforms@, name)->Some_0.size,
        post.uniforms@ == pre.uniforms@,
        ({
            let u = spec_find_uniform(pre.uniforms@, name)->Some_0;
            &&& (u.stage == ShaderType::VS ==> post.vs_uniform_buffer@ == spec_write_bytes(
                pre.vs_uniform_buffer@,
                u.byte_offset as int,
                data,
            ) && post.ps_uniform_buffer@ == pre.ps_uniform_buffer@)
            &&& (u.stage == ShaderType::PS ==> post.ps_uniform_buffer@ == spec_write_bytes(
                pre.ps_uniform_buffer@,
                u.byte_offset as int,
                data,
            ) && post.vs_uniform_buffer@ == pre.vs_uniform_buffer@)
        }),
    ensures
        spec_get_uniform(post, name) == Ok::<Seq<u8>, MaterialError>(data),
{
    let u = spec_find_uniform(pre.uniforms@, name)->Some_0;
    lemma_spec_find_uniform_in(pre.uniforms@, name);
    if u.stage == ShaderType::VS {
        assert(post.vs_uniform_buffer@.subrange(u.byte_offset as int, u.byte_offset + u.size)
            =~= data);
    } else {
        assert(u.stage == ShaderType::PS);
        assert(post.ps_uniform_buffer@.subrange(u.byte_offset as int, u.byte_offset + u.size)
            =~= data);
    }
}

/// A found uniform is one of the declared uniforms.
pub proof fn lemma_spec_find_uniform_in(us: Seq<ShaderUniformDeclaration>, name: Seq<char>)
    requires
        spec_find_uniform(us, name) is Some,
    ensures
        exists|i: int|
            0 <= i < us.len() && us[i] == spec_find_uniform(us, name)->Some_0,
    decreases us.len(),
{
    if us.len() > 0 {
        if us[0].name@ == name {
        } else {
            lemma_spec_find_uniform_in(us.drop_first(), name);
            let j = choose|i: int|
                0 <= i < us.drop_first().len() && us.drop_first()[i] == spec_find_uniform(
                    us.drop_first(),
                    name,
                )->Some_0;
            assert(us[j + 1] == us.drop_first()[j]);
        }
    }
}

} // verus!
