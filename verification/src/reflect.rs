//! Shader reflection: turns shading-language source text into constant-buffer
//! layouts and resource declarations.  Buffers are classified by name into
//! per-stage "system" buffers and at most one "material" buffer per stage;
//! declaring a second material buffer for a stage is an error, as is an
//! unknown uniform type token or an unclassifiable buffer name.
//!
//! The executable entry points return exactly what the specification-level
//! reflection denotes on the source's character sequence.

use vstd::prelude::*;
use crate::scan::{contains_seq, str_contains, digits_val, parse_digits_u32, str_to_chars};
use crate::shader_types::{
    ShaderType, ShaderUniformType, spec_uniform_type_of, spec_uniform_type_size,
};
use crate::shader_uniform::{
    ShaderUniformDeclaration, ConstantBufferDeclaration, UniformLayoutV, CBufV, sum_sizes,
    sum_sizes_v, lemma_sum_sizes_view, lemma_sum_sizes_nonneg, round_up16,
};
use crate::shader_resource::{ShaderResourceDeclaration, ResourceV};
use crate::tokens::{
    BlockTok, UniformTok, ResTok, scan_blocks, scan_uniforms, scan_resources, block_wf, res_wf,
    lemma_scan_blocks_wf, lemma_scan_resources_wf, scan_blocks_x, scan_uniforms_x,
    scan_resources_x, BlockE, UniformTokE, ResE,
};

verus! {

/// Why reflection rejected a source text.
#[derive(Clone, Copy, Debug, PartialEq, Eq, Structural)]
pub enum ReflectError {
    /// A uniform's type token is outside the closed type set.
    UnknownUniformType,
    /// A constant buffer's name carries none of the recognized
    /// system/material markers.
    UnknownBufferName,
    /// A second material buffer was declared for the same stage.
    DuplicateMaterialBuffer,
    /// A register number does not fit in 32 bits.
    InvalidRegister,
    /// A buffer's raw size left no room for 16-byte padding.
    TooLarge,
}

/// How a constant buffer's name classifies it.
#[derive(Clone, Copy, Debug, PartialEq, Eq, Structural)]
pub enum BufferClass {
    VSSystem,
    PSSystem,
    VSMaterial,
    PSMaterial,
    Other,
}

/// Classifies a buffer by substring markers in its name, in the order the
/// markers are tried.
pub open spec fn classify_buffer_name(name: Seq<char>) -> BufferClass {
    if contains_seq(name, "VSSystem"@) {
        BufferClass::VSSystem
    } else if contains_seq(name, "PSSystem"@) {
        BufferClass::PSSystem
    } else if contains_seq(name, "VSMaterial"@) {
        BufferClass::VSMaterial
    } else if contains_seq(name, "PSMaterial"@) {
        BufferClass::PSMaterial
    } else {
        BufferClass::Other
    }
}

/// Stage a classified buffer belongs to.
pub open spec fn class_stage(c: BufferClass) -> ShaderType {
    match c {
        BufferClass::VSSystem => ShaderType::VS,
        BufferClass::VSMaterial => ShaderType::VS,
        BufferClass::PSSystem => ShaderType::PS,
        BufferClass::PSMaterial => ShaderType::PS,
        BufferClass::Other => ShaderType::Unknown,
    }
}

/// Executable twin of `classify_buffer_name`.
pub fn ClassifyBufferName(name: &str) -> (r: BufferClass)
    ensures
        r == classify_buffer_name(name@),
{
    if str_contains(name, "VSSystem") {
        BufferClass::VSSystem
    } else if str_contains(name, "PSSystem") {
        BufferClass::PSSystem
    } else if str_contains(name, "VSMaterial") {
        BufferClass::VSMaterial
    } else if str_contains(name, "PSMaterial") {
        BufferClass::PSMaterial
    } else {
        BufferClass::Other
    }
}

/// Ghost image of a graphics shader's reflection output.
#[verifier::ext_equal]
pub struct ReflectionV {
    pub vs_material: Option<CBufV>,
    pub vs_system: Seq<CBufV>,
    pub ps_material: Option<CBufV>,
    pub ps_system: Seq<CBufV>,
    pub material_resources: Seq<ResourceV>,
    pub system_resources: Seq<ResourceV>,
}

/// Ghost image of a compute shader's reflection output.
#[verifier::ext_equal]
pub struct ComputeReflectionV {
    pub buffers: Seq<CBufV>,
    pub resources: Seq<ResourceV>,
}

pub open spec fn empty_reflection() -> ReflectionV {
    ReflectionV {
        vs_material: None,
        vs_system: Seq::empty(),
        ps_material: None,
        ps_system: Seq::empty(),
        material_resources: Seq::empty(),
        system_resources: Seq::empty(),
    }
}

/// Uniform layouts built from the given tokens, starting at `offset`; fails
/// on an unknown type token, or when the raw size would leave no room for
/// padding.
pub open spec fn build_uniforms_rec(
    toks: Seq<UniformTok>,
    register: u32,
    st: ShaderType,
    offset: int,
) -> Result<Seq<UniformLayoutV>, ReflectError>
    decreases toks.len(),
{
    if toks.len() == 0 {
        Ok(Seq::empty())
    } else {
        let t = spec_uniform_type_of(toks[0].ty);
        if t == ShaderUniformType::Unknown {
            Err(ReflectError::UnknownUniformType)
        } else {
            let sz = spec_uniform_type_size(t);
            if offset + sz > u32::MAX - 15 {
                Err(ReflectError::TooLarge)
            } else {
                match build_uniforms_rec(toks.drop_first(), register, st, offset + sz) {
                    Ok(rest) => Ok(
                        seq![
                            UniformLayoutV {
                                name: toks[0].name,
                                utype: t,
                                size: sz,
                                byte_offset: offset as u32,
                                buffer_register: register,
                                stage: st,
                            },
                        ] + rest,
                    ),
                    Err(e) => Err(e),
                }
            }
        }
    }
}

/// The finalized buffer layout built from the given tokens.
pub open spec fn spec_build_buffer(
    name: Seq<char>,
    register: u32,
    st: ShaderType,
    toks: Seq<UniformTok>,
) -> Result<CBufV, ReflectError> {
    match build_uniforms_rec(toks, register, st, 0) {
        Ok(us) => Ok(
            CBufV {
                name,
                register,
                size: round_up16(sum_sizes_v(us)) as u32,
                uniforms: us,
                stage: st,
                is_finalized: true,
            },
        ),
        Err(e) => Err(e),
    }
}

/// Prefixes the layouts of `r` with `prefix` when `r` succeeded.
pub open spec fn prepend_ok(
    prefix: Seq<UniformLayoutV>,
    r: Result<Seq<UniformLayoutV>, ReflectError>,
) -> Result<Seq<UniformLayoutV>, ReflectError> {
    match r {
        Ok(rest) => Ok(prefix + rest),
        Err(e) => Err(e),
    }
}

/// Builds and finalizes the constant-buffer declaration for one block body.
fn build_buffer_x(name: &String, register: u32, stage: ShaderType, toks: &Vec<UniformTokE>) -> (r:
    Result<ConstantBufferDeclaration, ReflectError>)
    ensures
        match r {
            Ok(cb) => {
                &&& spec_build_buffer(name@, register, stage, toks.deep_view()) == Ok::<
                    CBufV,
                    ReflectError,
                >(cb.deep_view())
                &&& cb.wf()
                &&& cb.is_finalized
            },
            Err(e) => spec_build_buffer(name@, register, stage, toks.deep_view()) == Err::<
                CBufV,
                ReflectError,
            >(e),
        },
{
    let ghost tv = toks.deep_view();
    let mut cb = ConstantBufferDeclaration::Create(name.as_str(), register, stage);
    let n = toks.len();
    let mut k: usize = 0;
    proof {
        assert(tv.skip(0) =~= tv);
        assert(cb.uniforms.deep_view() =~= Seq::<UniformLayoutV>::empty());
    }
    while k < n
        invariant
            n == toks@.len(),
            tv == toks.deep_view(),
            k <= n,
            cb.wf(),
            !cb.is_finalized,
            cb.name@ == name@,
            cb.register == register,
            cb.stage == stage,
            cb.size <= u32::MAX - 15,
            build_uniforms_rec(tv, register, stage, 0) == prepend_ok(
                cb.uniforms.deep_view(),
                build_uniforms_rec(tv.skip(k as int), register, stage, cb.size as int),
            ),
        decreases n - k,
    {
        proof {
            assert(tv.skip(k as int)[0] == tv[k as int]);
            assert(tv.skip(k as int).drop_first() =~= tv.skip(k as int + 1));
        }
        let t = ShaderUniformType::ShaderUniformFromHLSLType(toks[k].ty.as_str());
        if t == ShaderUniformType::Unknown {
            return Err(ReflectError::UnknownUniformType);
        }
        let sz = ShaderUniformType::ShaderTypeSize(t);
        if cb.size > (u32::MAX - 15) - sz {
            return Err(ReflectError::TooLarge);
        }
        let ghost prev_uniforms = cb.uniforms.deep_view();
        let u = ShaderUniformDeclaration::Create(toks[k].name.as_str(), t, cb.size, register, stage);
        cb.AddUniform(u);
        proof {
            assert(cb.uniforms.deep_view() =~= prev_uniforms.push(
                cb.uniforms@[cb.uniforms@.len() - 1].deep_view(),
            ));
            let v = UniformLayoutV {
                name: tv[k as int].name,
                utype: t,
                size: sz,
                byte_offset: (cb.size - sz) as u32,
                buffer_register: register,
                stage,
            };
            assert(cb.uniforms.deep_view() =~= prev_uniforms + seq![v]);
            assert forall|rest: Seq<UniformLayoutV>|
                true implies (prev_uniforms + seq![v]) + rest =~= prev_uniforms + (seq![v]
                + rest) by {}
        }
        k = k + 1;
    }
    proof {
        assert(tv.skip(n as int) =~= Seq::<UniformTok>::empty());
        assert(cb.uniforms.deep_view() + Seq::<UniformLayoutV>::empty() =~= cb.uniforms.deep_view());
        assert(build_uniforms_rec(tv, register, stage, 0) == Ok::<_, ReflectError>(
            cb.uniforms.deep_view(),
        ));
        lemma_sum_sizes_view(cb.uniforms@, cb.uniforms.deep_view());
        lemma_sum_sizes_nonneg(cb.uniforms@);
        let raw = sum_sizes(cb.uniforms@);
        assert(((raw + 15) / 16) * 16 <= raw + 15) by (nonlinear_arith)
            requires
                raw >= 0,
        ;
    }
    cb.Finalize();
    Ok(cb)
}

/// Adds one classified buffer to the reflection; at most one material buffer
/// may exist per stage.
pub open spec fn spec_add_block(s: Seq<char>, b: BlockTok, acc: ReflectionV) -> Result<
    ReflectionV,
    ReflectError,
> {
    let class = classify_buffer_name(b.name);
    if class == BufferClass::Other {
        Err(ReflectError::UnknownBufferName)
    } else if digits_val(s, b.reg_start, b.reg_end) > u32::MAX as int {
        Err(ReflectError::InvalidRegister)
    } else {
        let reg = digits_val(s, b.reg_start, b.reg_end) as u32;
        match spec_build_buffer(
            b.name,
            reg,
            class_stage(class),
            scan_uniforms(s, b.body_start, b.body_end),
        ) {
            Err(e) => Err(e),
            Ok(cb) => match class {
                BufferClass::VSSystem => Ok(
                    ReflectionV { vs_system: acc.vs_system.push(cb), ..acc },
                ),
                BufferClass::PSSystem => Ok(
                    ReflectionV { ps_system: acc.ps_system.push(cb), ..acc },
                ),
                BufferClass::VSMaterial => if acc.vs_material is Some {
                    Err(ReflectError::DuplicateMaterialBuffer)
                } else {
                    Ok(ReflectionV { vs_material: Some(cb), ..acc })
                },
                BufferClass::PSMaterial => if acc.ps_material is Some {
                    Err(ReflectError::DuplicateMaterialBuffer)
                } else {
                    Ok(ReflectionV { ps_material: Some(cb), ..acc })
                },
                BufferClass::Other => Err(ReflectError::UnknownBufferName),
            },
        }
    }
}

pub open spec fn spec_add_blocks(s: Seq<char>, blocks: Seq<BlockTok>, acc: ReflectionV) -> Result<
    ReflectionV,
    ReflectError,
>
    decreases blocks.len(),
{
    if blocks.len() == 0 {
        Ok(acc)
    } else {
        match spec_add_block(s, blocks[0], acc) {
            Ok(acc2) => spec_add_blocks(s, blocks.drop_first(), acc2),
            Err(e) => Err(e),
        }
    }
}

/// Adds one resource: names carrying the reserved `sys_` prefix are system
/// resources, the rest belong to the material.
pub open spec fn spec_add_resource(s: Seq<char>, r: ResTok, acc: ReflectionV) -> Result<
    ReflectionV,
    ReflectError,
> {
    if digits_val(s, r.reg_start, r.reg_end) > u32::MAX as int {
        Err(ReflectError::InvalidRegister)
    } else {
        let res = ResourceV {
            name: r.name,
            rtype: r.kind,
            register: digits_val(s, r.reg_start, r.reg_end) as u32,
        };
        if contains_seq(r.name, "sys_"@) {
            Ok(ReflectionV { system_resources: acc.system_resources.push(res), ..acc })
        } else {
            Ok(ReflectionV { material_resources: acc.material_resources.push(res), ..acc })
        }
    }
}

pub open spec fn spec_add_resources(s: Seq<char>, rs: Seq<ResTok>, acc: ReflectionV) -> Result<
    ReflectionV,
    ReflectError,
>
    decreases rs.len(),
{
    if rs.len() == 0 {
        Ok(acc)
    } else {
        match spec_add_resource(s, rs[0], acc) {
            Ok(acc2) => spec_add_resources(s, rs.drop_first(), acc2),
            Err(e) => Err(e),
        }
    }
}

/// What reflecting a graphics shader source denotes.
pub open spec fn spec_reflect_shader(s: Seq<char>) -> Result<ReflectionV, ReflectError> {
    match spec_add_blocks(s, scan_blocks(s, 0), empty_reflection()) {
        Ok(acc) => spec_add_resources(s, scan_resources(s, 0, false), acc),
        Err(e) => Err(e),
    }
}

/// Reflection output of a graphics shader: constant-buffer layouts per
/// stage, and the material/system resource lists.
pub struct ShaderReflection {
    pub vs_material_buffer: Option<ConstantBufferDeclaration>,
    pub vs_system_buffers: Vec<ConstantBufferDeclaration>,
    pub ps_material_buffer: Option<ConstantBufferDeclaration>,
    pub ps_system_buffers: Vec<ConstantBufferDeclaration>,
    pub material_resources: Vec<ShaderResourceDeclaration>,
    pub system_resources: Vec<ShaderResourceDeclaration>,
}

impl DeepView for ShaderReflection {
    type V = ReflectionV;

    open spec fn deep_view(&self) -> ReflectionV {
        ReflectionV {
            vs_material: match self.vs_material_buffer {
                Some(cb) => Some(cb.deep_view()),
                None => None,
            },
            vs_system: self.vs_system_buffers.deep_view(),
            ps_material: match self.ps_material_buffer {
                Some(cb) => Some(cb.deep_view()),
                None => None,
            },
            ps_system: self.ps_system_buffers.deep_view(),
            material_resources: self.material_resources.deep_view(),
            system_resources: self.system_resources.deep_view(),
        }
    }
}

impl ShaderReflection {
    /// Every buffer of the reflection is well formed and finalized.
    pub open spec fn wf(self) -> bool {
        &&& match self.vs_material_buffer {
            Some(cb) => cb.wf() && cb.is_finalized,
            None => true,
        }
        &&& match self.ps_material_buffer {
            Some(cb) => cb.wf() && cb.is_finalized,
            None => true,
        }
        &&& forall|i: int|
            0 <= i < self.vs_system_buffers@.len() ==> (#[trigger] self.vs_system_buffers@[i]).wf()
                && self.vs_system_buffers@[i].is_finalized
        &&& forall|i: int|
            0 <= i < self.ps_system_buffers@.len() ==> (#[trigger] self.ps_system_buffers@[i]).wf()
                && self.ps_system_buffers@[i].is_finalized
    }
}

/// Reflects graphics shader source text: discovers its `cbuffer` blocks,
/// classifies them by name, packs their uniforms with cumulative offsets and
/// 16-byte-aligned finalized sizes, and collects its texture declarations.
pub fn ReflectShaderSource(source: &str) -> (r: Result<ShaderReflection, ReflectError>)
    ensures
        match r {
            Ok(refl) => spec_reflect_shader(source@) == Ok::<ReflectionV, ReflectError>(
                refl.deep_view(),
            ) && refl.wf(),
            Err(e) => spec_reflect_shader(source@) == Err::<ReflectionV, ReflectError>(e),
        },
{
    let chars = str_to_chars(source);
    let ghost s = source@;
    let blocks = scan_blocks_x(&chars, source);
    let ghost bv = scan_blocks(s, 0);
    let mut refl = ShaderReflection {
        vs_material_buffer: None,
        vs_system_buffers: Vec::new(),
        ps_material_buffer: None,
        ps_system_buffers: Vec::new(),
        material_resources: Vec::new(),
        system_resources: Vec::new(),
    };
    let nb = blocks.len();
    let mut k: usize = 0;
    proof {
        assert(bv.skip(0) =~= bv);
        assert(refl.deep_view() =~= empty_reflection());
    }
    while k < nb
        invariant
            s == source@,
            chars@ == s,
            nb == blocks@.len(),
            blocks.deep_view() == bv,
            bv == scan_blocks(s, 0),
            k <= nb,
            refl.wf(),
            spec_add_blocks(s, bv, empty_reflection()) == spec_add_blocks(
                s,
                bv.skip(k as int),
                refl.deep_view(),
            ),
        decreases nb - k,
    {
        proof {
            lemma_scan_blocks_wf(s, 0, k as int);
            assert(bv.skip(k as int)[0] == bv[k as int]);
            assert(bv.skip(k as int).drop_first() =~= bv.skip(k as int + 1));
            assert(blocks@[k as int].deep_view() == bv[k as int]);
        }
        let b = &blocks[k];
        let class = ClassifyBufferName(b.name.as_str());
        if class == BufferClass::Other {
            return Err(ReflectError::UnknownBufferName);
        }
        let reg = match parse_digits_u32(&chars, b.reg_start, b.reg_end) {
            Some(v) => v,
            None => {
                return Err(ReflectError::InvalidRegister);
            },
        };
        let stage = match class {
            BufferClass::VSSystem => ShaderType::VS,
            BufferClass::VSMaterial => ShaderType::VS,
            BufferClass::PSSystem => ShaderType::PS,
            BufferClass::PSMaterial => ShaderType::PS,
            BufferClass::Other => ShaderType::Unknown,
        };
        let toks = scan_uniforms_x(&chars, source, b.body_start, b.body_end);
        let cb = match build_buffer_x(&b.name, reg, stage, &toks) {
            Ok(cb) => cb,
            Err(e) => {
                return Err(e);
            },
        };
        let ghost prev = refl.deep_view();
        match class {
            BufferClass::VSSystem => {
                refl.vs_system_buffers.push(cb);
                proof {
                    assert(refl.deep_view() =~= ReflectionV {
                        vs_system: prev.vs_system.push(
                            refl.vs_system_buffers@[refl.vs_system_buffers@.len()
                                - 1].deep_view(),
                        ),
                        ..prev
                    });
                }
            },
            BufferClass::PSSystem => {
                refl.ps_system_buffers.push(cb);
                proof {
                    assert(refl.deep_view() =~= ReflectionV {
                        ps_system: prev.ps_system.push(
                            refl.ps_system_buffers@[refl.ps_system_buffers@.len()
                                - 1].deep_view(),
                        ),
                        ..prev
                    });
                }
            },
            BufferClass::VSMaterial => {
                if refl.vs_material_buffer.is_some() {
                    return Err(ReflectError::DuplicateMaterialBuffer);
                }
                refl.vs_material_buffer = Some(cb);
            },
            BufferClass::PSMaterial => {
                if refl.ps_material_buffer.is_some() {
                    return Err(ReflectError::DuplicateMaterialBuffer);
                }
                refl.ps_material_buffer = Some(cb);
            },
            BufferClass::Other => {
                return Err(ReflectError::UnknownBufferName);
            },
        }
        k = k + 1;
    }
    proof {
        assert(bv.skip(nb as int) =~= Seq::<BlockTok>::empty());
    }
    let resources = scan_resources_x(&chars, source, false);
    let ghost rv = scan_resources(s, 0, false);
    let ghost acc0 = refl.deep_view();
    let nr = resources.len();
    let mut k2: usize = 0;
    proof {
        assert(rv.skip(0) =~= rv);
    }
    while k2 < nr
        invariant
            s == source@,
            chars@ == s,
            nr == resources@.len(),
            resources.deep_view() == rv,
            rv == scan_resources(s, 0, false),
            k2 <= nr,
            refl.wf(),
            spec_add_blocks(s, scan_blocks(s, 0), empty_reflection()) == Ok::<
                ReflectionV,
                ReflectError,
            >(acc0),
            spec_add_resources(s, rv, acc0) == spec_add_resources(
                s,
                rv.skip(k2 as int),
                refl.deep_view(),
            ),
        decreases nr - k2,
    {
        proof {
            lemma_scan_resources_wf(s, 0, false, k2 as int);
            assert(rv.skip(k2 as int)[0] == rv[k2 as int]);
            assert(rv.skip(k2 as int).drop_first() =~= rv.skip(k2 as int + 1));
            assert(resources@[k2 as int].deep_view() == rv[k2 as int]);
        }
        let re = &resources[k2];
        let reg = match parse_digits_u32(&chars, re.reg_start, re.reg_end) {
            Some(v) => v,
            None => {
                return Err(ReflectError::InvalidRegister);
            },
        };
        let decl = ShaderResourceDeclaration::Create(re.name.as_str(), re.kind, reg);
        let ghost prev = refl.deep_view();
        if str_contains(re.name.as_str(), "sys_") {
            refl.system_resources.push(decl);
            proof {
                assert(refl.deep_view() =~= ReflectionV {
                    system_resources: prev.system_resources.push(
                        refl.system_resources@[refl.system_resources@.len() - 1].deep_view(),
                    ),
                    ..prev
                });
            }
        } else {
            refl.material_resources.push(decl);
            proof {
                assert(refl.deep_view() =~= ReflectionV {
                    material_resources: prev.material_resources.push(
                        refl.material_resources@[refl.material_resources@.len()
                            - 1].deep_view(),
                    ),
                    ..prev
                });
            }
        }
        k2 = k2 + 1;
    }
    proof {
        assert(rv.skip(nr as int) =~= Seq::<ResTok>::empty());
    }
    Ok(refl)
}

/// What reflecting a compute shader source denotes: every buffer belongs to
/// the compute stage and no classification applies; all resources go into
/// one list.
pub open spec fn spec_add_compute_block(s: Seq<char>, b: BlockTok, acc: Seq<CBufV>) -> Result<
    Seq<CBufV>,
    ReflectError,
> {
    if digits_val(s, b.reg_start, b.reg_end) > u32::MAX as int {
        Err(ReflectError::InvalidRegister)
    } else {
        match spec_build_buffer(
            b.name,
            digits_val(s, b.reg_start, b.reg_end) as u32,
            ShaderType::CS,
            scan_uniforms(s, b.body_start, b.body_end),
        ) {
            Ok(cb) => Ok(acc.push(cb)),
            Err(e) => Err(e),
        }
    }
}

pub open spec fn spec_add_compute_blocks(
    s: Seq<char>,
    blocks: Seq<BlockTok>,
    acc: Seq<CBufV>,
) -> Result<Seq<CBufV>, ReflectError>
    decreases blocks.len(),
{
    if blocks.len() == 0 {
        Ok(acc)
    } else {
        match spec_add_compute_block(s, blocks[0], acc) {
            Ok(acc2) => spec_add_compute_blocks(s, blocks.drop_first(), acc2),
            Err(e) => Err(e),
        }
    }
}

pub open spec fn spec_add_compute_resources(
    s: Seq<char>,
    rs: Seq<ResTok>,
    acc: Seq<ResourceV>,
) -> Result<Seq<ResourceV>, ReflectError>
    decreases rs.len(),
{
    if rs.len() == 0 {
        Ok(acc)
    } else if digits_val(s, rs[0].reg_start, rs[0].reg_end) > u32::MAX as int {
        Err(ReflectError::InvalidRegister)
    } else {
        spec_add_compute_resources(
            s,
            rs.drop_first(),
            acc.push(
                ResourceV {
                    name: rs[0].name,
                    rtype: rs[0].kind,
                    register: digits_val(s, rs[0].reg_start, rs[0].reg_end) as u32,
                },
            ),
        )
    }
}

pub open spec fn spec_reflect_compute(s: Seq<char>) -> Result<ComputeReflectionV, ReflectError> {
    match spec_add_compute_blocks(s, scan_blocks(s, 0), Seq::empty()) {
        Ok(bufs) => match spec_add_compute_resources(
            s,
            scan_resources(s, 0, true),
            Seq::empty(),
        ) {
            Ok(res) => Ok(ComputeReflectionV { buffers: bufs, resources: res }),
            Err(e) => Err(e),
        },
        Err(e) => Err(e),
    }
}

/// Reflection output of a compute shader.
pub struct ComputeReflection {
    pub buffers: Vec<ConstantBufferDeclaration>,
    pub resources: Vec<ShaderResourceDeclaration>,
}

impl DeepView for ComputeReflection {
    type V = ComputeReflectionV;

    open spec fn deep_view(&self) -> ComputeReflectionV {
        ComputeReflectionV {
            buffers: self.buffers.deep_view(),
            resources: self.resources.deep_view(),
        }
    }
}

impl ComputeReflection {
    pub open spec fn wf(self) -> bool {
        forall|i: int|
            0 <= i < self.buffers@.len() ==> (#[trigger] self.buffers@[i]).wf()
                && self.buffers@[i].is_finalized
    }
}

/// Reflects compute shader source text.
pub fn ReflectComputeSource(source: &str) -> (r: Result<ComputeReflection, ReflectError>)
    ensures
        match r {
            Ok(refl) => spec_reflect_compute(source@) == Ok::<ComputeReflectionV, ReflectError>(
                refl.deep_view(),
            ) && refl.wf(),
            Err(e) => spec_reflect_compute(source@) == Err::<ComputeReflectionV, ReflectError>(e),
        },
{
    let chars = str_to_chars(source);
    let ghost s = source@;
    let blocks = scan_blocks_x(&chars, source);
    let ghost bv = scan_blocks(s, 0);
    let mut bufs: Vec<ConstantBufferDeclaration> = Vec::new();
    let nb = blocks.len();
    let mut k: usize = 0;
    proof {
        assert(bv.skip(0) =~= bv);
        assert(bufs.deep_view() =~= Seq::<CBufV>::empty());
    }
    while k < nb
        invariant
            s == source@,
            chars@ == s,
            nb == blocks@.len(),
            blocks.deep_view() == bv,
            bv == scan_blocks(s, 0),
            k <= nb,
            forall|i: int|
                0 <= i < bufs@.len() ==> (#[trigger] bufs@[i]).wf() && bufs@[i].is_finalized,
            spec_add_compute_blocks(s, bv, Seq::empty()) == spec_add_compute_blocks(
                s,
                bv.skip(k as int),
                bufs.deep_view(),
            ),
        decreases nb - k,
    {
        proof {
            lemma_scan_blocks_wf(s, 0, k as int);
            assert(bv.skip(k as int)[0] == bv[k as int]);
            assert(bv.skip(k as int).drop_first() =~= bv.skip(k as int + 1));
            assert(blocks@[k as int].deep_view() == bv[k as int]);
        }
        let b = &blocks[k];
        let reg = match parse_digits_u32(&chars, b.reg_start, b.reg_end) {
            Some(v) => v,
            None => {
                return Err(ReflectError::InvalidRegister);
            },
        };
        let toks = scan_uniforms_x(&chars, source, b.body_start, b.body_end);
        let cb = match build_buffer_x(&b.name, reg, ShaderType::CS, &toks) {
            Ok(cb) => cb,
            Err(e) => {
                return Err(e);
            },
        };
        let ghost prev = bufs.deep_view();
        bufs.push(cb);
        proof {
            assert(bufs.deep_view() =~= prev.push(bufs@[bufs@.len() - 1].deep_view()));
        }
        k = k + 1;
    }
    proof {
        assert(bv.skip(nb as int) =~= Seq::<BlockTok>::empty());
    }
    let resources = scan_resources_x(&chars, source, true);
    let ghost rv = scan_resources(s, 0, true);
    let mut res: Vec<ShaderResourceDeclaration> = Vec::new();
    let nr = resources.len();
    let mut k2: usize = 0;
    proof {
        assert(rv.skip(0) =~= rv);
        assert(res.deep_view() =~= Seq::<ResourceV>::empty());
    }
    while k2 < nr
        invariant
            s == source@,
            chars@ == s,
            nr == resources@.len(),
            resources.deep_view() == rv,
            rv == scan_resources(s, 0, true),
            k2 <= nr,
            spec_add_compute_blocks(s, scan_blocks(s, 0), Seq::empty()) == Ok::<
                Seq<CBufV>,
                ReflectError,
            >(bufs.deep_view()),
            spec_add_compute_resources(s, rv, Seq::empty()) == spec_add_compute_resources(
                s,
                rv.skip(k2 as int),
                res.deep_view(),
            ),
        decreases nr - k2,
    {
        proof {
            lemma_scan_resources_wf(s, 0, true, k2 as int);
            assert(rv.skip(k2 as int)[0] == rv[k2 as int]);
            assert(rv.skip(k2 as int).drop_first() =~= rv.skip(k2 as int + 1));
            assert(resources@[k2 as int].deep_view() == rv[k2 as int]);
        }
        let re = &resources[k2];
        let reg = match parse_digits_u32(&chars, re.reg_start, re.reg_end) {
            Some(v) => v,
            None => {
                return Err(ReflectError::InvalidRegister);
            },
        };
        let ghost prev = res.deep_view();
        res.push(ShaderResourceDeclaration::Create(re.name.as_str(), re.kind, reg));
        proof {
            assert(res.deep_view() =~= prev.push(res@[res@.len() - 1].deep_view()));
        }
        k2 = k2 + 1;
    }
    proof {
        assert(rv.skip(nr as int) =~= Seq::<ResTok>::empty());
    }
    Ok(ComputeReflection { buffers: bufs, resources: res })
}

/// The material slot of a stage, selected by the class that fills it.
pub open spec fn material_slot(acc: ReflectionV, class: BufferClass) -> Option<CBufV> {
    match class {
        BufferClass::VSMaterial => acc.vs_material,
        BufferClass::PSMaterial => acc.ps_material,
        _ => None,
    }
}

/// Adding a block never clears a stage's material slot.
proof fn lemma_add_block_keeps_material(
    s: Seq<char>,
    b: BlockTok,
    acc: ReflectionV,
    class: BufferClass,
)
    requires
        class == BufferClass::VSMaterial || class == BufferClass::PSMaterial,
        material_slot(acc, class) is Some,
        spec_add_block(s, b, acc) is Ok,
    ensures
        material_slot(spec_add_block(s, b, acc)->Ok_0, class) is Some,
{
}

/// A block whose name classifies as a stage's material buffer fills that
/// stage's slot when it is accepted.
proof fn lemma_add_block_sets_material(s: Seq<char>, b: BlockTok, acc: ReflectionV)
    requires
        spec_add_block(s, b, acc) is Ok,
        classify_buffer_name(b.name) == BufferClass::VSMaterial || classify_buffer_name(b.name)
            == BufferClass::PSMaterial,
    ensures
        material_slot(spec_add_block(s, b, acc)->Ok_0, classify_buffer_name(b.name)) is Some,
{
}

/// Once a stage's material slot is filled, a later block of the same class
/// makes assembly fail.
proof fn lemma_add_blocks_err_when_slot_full(
    s: Seq<char>,
    blocks: Seq<BlockTok>,
    acc: ReflectionV,
    class: BufferClass,
    k: int,
)
    requires
        class == BufferClass::VSMaterial || class == BufferClass::PSMaterial,
        material_slot(acc, class) is Some,
        0 <= k < blocks.len(),
        classify_buffer_name(blocks[k].name) == class,
    ensures
        spec_add_blocks(s, blocks, acc) is Err,
    decreases blocks.len(),
{
    match spec_add_block(s, blocks[0], acc) {
        Ok(acc2) => {
            lemma_add_block_keeps_material(s, blocks[0], acc, class);
            if k == 0 {
                assert(spec_add_block(s, blocks[0], acc) is Err);
            } else {
                lemma_add_blocks_err_when_slot_full(s, blocks.drop_first(), acc2, class, k - 1);
            }
        },
        Err(_) => {},
    }
}

/// Single-material-buffer law: if the scanned blocks contain two whose names
/// both classify as the material buffer of the same stage, assembly fails,
/// whatever came before them.
pub proof fn lemma_two_material_buffers_fail(
    s: Seq<char>,
    blocks: Seq<BlockTok>,
    acc: ReflectionV,
    class: BufferClass,
    i: int,
    j: int,
)
    requires
        class == BufferClass::VSMaterial || class == BufferClass::PSMaterial,
        0 <= i < j < blocks.len(),
        classify_buffer_name(blocks[i].name) == class,
        classify_buffer_name(blocks[j].name) == class,
    ensures
        spec_add_blocks(s, blocks, acc) is Err,
    decreases blocks.len(),
{
    match spec_add_block(s, blocks[0], acc) {
        Ok(acc2) => {
            if i == 0 {
                lemma_add_block_sets_material(s, blocks[0], acc);
                lemma_add_blocks_err_when_slot_full(s, blocks.drop_first(), acc2, class, j - 1);
            } else {
                lemma_two_material_buffers_fail(s, blocks.drop_first(), acc2, class, i - 1, j - 1);
            }
        },
        Err(_) => {},
    }
}

/// Single-material-buffer law at source level: a source whose scanned blocks
/// declare the material buffer of one stage twice is rejected by reflection,
/// never resolved by silently picking one of the two.
pub proof fn lemma_reflect_rejects_duplicate_material(
    s: Seq<char>,
    class: BufferClass,
    i: int,
    j: int,
)
    requires
        class == BufferClass::VSMaterial || class == BufferClass::PSMaterial,
        0 <= i < j < scan_blocks(s, 0).len(),
        classify_buffer_name(scan_blocks(s, 0)[i].name) == class,
        classify_buffer_name(scan_blocks(s, 0)[j].name) == class,
    ensures
        spec_reflect_shader(s) is Err,
{
    lemma_two_material_buffers_fail(s, scan_blocks(s, 0), empty_reflection(), class, i, j);
}

} // verus!
// The lemmas below track, through assembly, that every uniform of a material
// buffer carries the stage and register of its buffer; material construction
// relies on them to address the right per-stage byte buffer.

verus! {

/// Every uniform of a built buffer carries its buffer's stage and register.
pub proof fn lemma_build_uniforms_props(
    toks: Seq<UniformTok>,
    register: u32,
    st: ShaderType,
    offset: int,
)
    requires
        build_uniforms_rec(toks, register, st, offset) is Ok,
    ensures
        forall|i: int|
            0 <= i < build_uniforms_rec(toks, register, st, offset)->Ok_0.len() ==> {
                let u = #[trigger] build_uniforms_rec(toks, register, st, offset)->Ok_0[i];
                u.stage == st && u.buffer_register == register
            },
    decreases toks.len(),
{
    if toks.len() > 0 {
        let t = spec_uniform_type_of(toks[0].ty);
        let sz = spec_uniform_type_size(t);
        lemma_build_uniforms_props(toks.drop_first(), register, st, offset + sz);
        let us = build_uniforms_rec(toks, register, st, offset)->Ok_0;
        let rest = build_uniforms_rec(toks.drop_first(), register, st, offset + sz)->Ok_0;
        assert forall|i: int|
            0 <= i < us.len() implies (us[i].stage == st && us[i].buffer_register == register) by {
            if i > 0 {
                assert(us[i] == rest[i - 1]);
            }
        }
    }
}

/// A buffer's uniforms all carry the given stage.
pub open spec fn cb_props(cb: CBufV, st: ShaderType) -> bool {
    &&& cb.stage == st
    &&& forall|i: int|
        0 <= i < cb.uniforms.len() ==> (#[trigger] cb.uniforms[i]).stage == st
            && cb.uniforms[i].buffer_register == cb.register
}

pub proof fn lemma_build_buffer_props(
    name: Seq<char>,
    register: u32,
    st: ShaderType,
    toks: Seq<UniformTok>,
)
    requires
        spec_build_buffer(name, register, st, toks) is Ok,
    ensures
        cb_props(spec_build_buffer(name, register, st, toks)->Ok_0, st),
{
    lemma_build_uniforms_props(toks, register, st, 0);
}

/// The material slots hold buffers of their own stage.
pub open spec fn stages_ok(r: ReflectionV) -> bool {
    &&& match r.vs_material {
        Some(cb) => cb_props(cb, ShaderType::VS),
        None => true,
    }
    &&& match r.ps_material {
        Some(cb) => cb_props(cb, ShaderType::PS),
        None => true,
    }
}

proof fn lemma_add_block_stages(s: Seq<char>, b: BlockTok, acc: ReflectionV)
    requires
        stages_ok(acc),
        spec_add_block(s, b, acc) is Ok,
    ensures
        stages_ok(spec_add_block(s, b, acc)->Ok_0),
{
    let class = classify_buffer_name(b.name);
    if class != BufferClass::Other && digits_val(s, b.reg_start, b.reg_end) <= u32::MAX as int {
        let reg = digits_val(s, b.reg_start, b.reg_end) as u32;
        let toks = scan_uniforms(s, b.body_start, b.body_end);
        if spec_build_buffer(b.name, reg, class_stage(class), toks) is Ok {
            lemma_build_buffer_props(b.name, reg, class_stage(class), toks);
        }
    }
}

proof fn lemma_add_blocks_stages(s: Seq<char>, blocks: Seq<BlockTok>, acc: ReflectionV)
    requires
        stages_ok(acc),
        spec_add_blocks(s, blocks, acc) is Ok,
    ensures
        stages_ok(spec_add_blocks(s, blocks, acc)->Ok_0),
    decreases blocks.len(),
{
    if blocks.len() > 0 {
        match spec_add_block(s, blocks[0], acc) {
            Ok(acc2) => {
                lemma_add_block_stages(s, blocks[0], acc);
                lemma_add_blocks_stages(s, blocks.drop_first(), acc2);
            },
            Err(_) => {},
        }
    }
}

proof fn lemma_add_resources_stages(s: Seq<char>, rs: Seq<ResTok>, acc: ReflectionV)
    requires
        stages_ok(acc),
        spec_add_resources(s, rs, acc) is Ok,
    ensures
        stages_ok(spec_add_resources(s, rs, acc)->Ok_0),
    decreases rs.len(),
{
    if rs.len() > 0 {
        match spec_add_resource(s, rs[0], acc) {
            Ok(acc2) => {
                lemma_add_resources_stages(s, rs.drop_first(), acc2);
            },
            Err(_) => {},
        }
    }
}

/// Every accepted reflection observes the stage discipline of its material
/// buffers.
pub proof fn lemma_reflect_stages_ok(s: Seq<char>)
    requires
        spec_reflect_shader(s) is Ok,
    ensures
        stages_ok(spec_reflect_shader(s)->Ok_0),
{
    let blocks = scan_blocks(s, 0);
    lemma_add_blocks_stages(s, blocks, empty_reflection());
    let acc = spec_add_blocks(s, blocks, empty_reflection())->Ok_0;
    lemma_add_resources_stages(s, scan_resources(s, 0, false), acc);
}

} // verus!
