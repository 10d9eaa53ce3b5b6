//! Uniform and constant-buffer layout declarations produced by shader
//! reflection.  A constant buffer accumulates uniforms in declaration order
//! with cumulative byte offsets, and is then finalized by rounding its size
//! up to the next 16-byte multiple.

use vstd::prelude::*;
use crate::shader_types::{ShaderType, ShaderUniformType, spec_uniform_type_size, str_eq};

verus! {

/// Ghost image of a `ShaderUniformDeclaration`, with the name as a
/// character sequence.
#[verifier::ext_equal]
pub struct UniformLayoutV {
    pub name: Seq<char>,
    pub utype: ShaderUniformType,
    pub size: u32,
    pub byte_offset: u32,
    pub buffer_register: u32,
    pub stage: ShaderType,
}

/// Ghost image of a `ConstantBufferDeclaration`.
#[verifier::ext_equal]
pub struct CBufV {
    pub name: Seq<char>,
    pub register: u32,
    pub size: u32,
    pub uniforms: Seq<UniformLayoutV>,
    pub stage: ShaderType,
    pub is_finalized: bool,
}

/// Layout of one scalar/vector/matrix field of a constant buffer.
pub struct ShaderUniformDeclaration {
    pub name: String,
    pub utype: ShaderUniformType,
    pub size: u32,
    pub byte_offset: u32,
    pub buffer_register: u32,
    pub stage: ShaderType,
}

impl DeepView for ShaderUniformDeclaration {
    type V = UniformLayoutV;

    open spec fn deep_view(&self) -> UniformLayoutV {
        UniformLayoutV {
            name: self.name@,
            utype: self.utype,
            size: self.size,
            byte_offset: self.byte_offset,
            buffer_register: self.buffer_register,
            stage: self.stage,
        }
    }
}

impl ShaderUniformDeclaration {
    /// Builds a uniform layout entry; its size is derived from its type.
    pub fn Create(
        name: &str,
        uniformType: ShaderUniformType,
        byteOffset: u32,
        bufferRegister: u32,
        shaderType: ShaderType,
    ) -> (r: ShaderUniformDeclaration)
        ensures
            r.name@ == name@,
            r.utype == uniformType,
            r.size == spec_uniform_type_size(uniformType),
            r.byte_offset == byteOffset,
            r.buffer_register == bufferRegister,
            r.stage == shaderType,
    {
        ShaderUniformDeclaration {
            name: name.to_owned(),
            utype: uniformType,
            size: ShaderUniformType::ShaderTypeSize(uniformType),
            byte_offset: byteOffset,
            buffer_register: bufferRegister,
            stage: shaderType,
        }
    }

    /// Copy of this declaration, equal to the original.
    pub fn Duplicate(&self) -> (r: ShaderUniformDeclaration)
        ensures
            r == *self,
    {
        ShaderUniformDeclaration {
            name: self.name.clone(),
            utype: self.utype,
            size: self.size,
            byte_offset: self.byte_offset,
            buffer_register: self.buffer_register,
            stage: self.stage,
        }
    }

    pub fn GetName(&self) -> (r: &String)
        ensures
            r == &self.name,
    {
        &self.name
    }

    pub fn GetType(&self) -> (r: ShaderUniformType)
        ensures
            r == self.utype,
    {
        self.utype
    }

    pub fn GetSize(&self) -> (r: u32)
        ensures
            r == self.size,
    {
        self.size
    }

    pub fn GetOffset(&self) -> (r: u32)
        ensures
            r == self.byte_offset,
    {
        self.byte_offset
    }

    pub fn GetBufferRegister(&self) -> (r: u32)
        ensures
            r == self.buffer_register,
    {
        self.buffer_register
    }

    pub fn GetShaderType(&self) -> (r: ShaderType)
        ensures
            r == self.stage,
    {
        self.stage
    }
}

/// Sum of the declared byte sizes of a sequence of uniforms: the raw
/// (unaligned) size of the buffer that holds them.
pub open spec fn sum_sizes(us: Seq<ShaderUniformDeclaration>) -> int
    decreases us.len(),
{
    if us.len() == 0 {
        0
    } else {
        sum_sizes(us.drop_last()) + us.last().size
    }
}

pub proof fn lemma_sum_sizes_nonneg(us: Seq<ShaderUniformDeclaration>)
    ensures
        sum_sizes(us) >= 0,
    decreases us.len(),
{
    if us.len() > 0 {
        lemma_sum_sizes_nonneg(us.drop_last());
    }
}

/// `raw` rounded up to the next multiple of 16.
pub open spec fn round_up16(raw: int) -> int {
    ((raw + 15) / 16) * 16
}

/// First uniform whose name reads `name`, in declaration order.
pub open spec fn spec_find_uniform(
    us: Seq<ShaderUniformDeclaration>,
    name: Seq<char>,
) -> Option<ShaderUniformDeclaration>
    decreases us.len(),
{
    if us.len() == 0 {
        None
    } else if us[0].name@ == name {
        Some(us[0])
    } else {
        spec_find_uniform(us.drop_first(), name)
    }
}

/// Ordered list of uniforms of one constant buffer, plus its (raw or
/// finalized) total byte size.
pub struct ConstantBufferDeclaration {
    pub name: String,
    pub register: u32,
    pub size: u32,
    pub uniforms: Vec<ShaderUniformDeclaration>,
    pub stage: ShaderType,
    pub is_finalized: bool,
}

impl DeepView for ConstantBufferDeclaration {
    type V = CBufV;

    open spec fn deep_view(&self) -> CBufV {
        CBufV {
            name: self.name@,
            register: self.register,
            size: self.size,
            uniforms: self.uniforms.deep_view(),
            stage: self.stage,
            is_finalized: self.is_finalized,
        }
    }
}

/// Sum of the sizes of a sequence of ghost uniform layouts.
pub open spec fn sum_sizes_v(us: Seq<UniformLayoutV>) -> int
    decreases us.len(),
{
    if us.len() == 0 {
        0
    } else {
        sum_sizes_v(us.drop_last()) + us.last().size
    }
}

/// The ghost image preserves the raw size sum.
pub proof fn lemma_sum_sizes_view(ds: Seq<ShaderUniformDeclaration>, vs: Seq<UniformLayoutV>)
    requires
        vs.len() == ds.len(),
        forall|i: int| 0 <= i < ds.len() ==> vs[i] == (#[trigger] ds[i]).deep_view(),
    ensures
        sum_sizes_v(vs) == sum_sizes(ds),
    decreases ds.len(),
{
    if ds.len() > 0 {
        lemma_sum_sizes_view(ds.drop_last(), vs.drop_last());
    }
}

impl ConstantBufferDeclaration {
    /// Layout invariant: every uniform's size is the size of its type, every
    /// uniform's offset is the sum of the sizes of the uniforms before it,
    /// and the buffer size is the raw sum, rounded up to a multiple of 16
    /// once the buffer is finalized.
    pub open spec fn wf(self) -> bool {
        &&& forall|i: int|
            0 <= i < self.uniforms@.len() ==> (#[trigger] self.uniforms@[i]).size
                == spec_uniform_type_size(self.uniforms@[i].utype)
        &&& forall|i: int|
            0 <= i < self.uniforms@.len() ==> (#[trigger] self.uniforms@[i]).byte_offset as int
                == sum_sizes(self.uniforms@.take(i))
        &&& self.size as int == if self.is_finalized {
            round_up16(sum_sizes(self.uniforms@))
        } else {
            sum_sizes(self.uniforms@)
        }
    }

    /// Builds an empty, not yet finalized buffer layout.
    pub fn Create(name: &str, register: u32, shaderType: ShaderType) -> (r:
        ConstantBufferDeclaration)
        ensures
            r.wf(),
            r.name@ == name@,
            r.register == register,
            r.size == 0,
            r.uniforms@.len() == 0,
            r.stage == shaderType,
            !r.is_finalized,
    {
        ConstantBufferDeclaration {
            name: name.to_owned(),
            register,
            size: 0,
            uniforms: Vec::new(),
            stage: shaderType,
            is_finalized: false,
        }
    }

    /// Appends a uniform declared at the current end of the buffer; the
    /// buffer's raw size grows by the uniform's size.
    pub fn AddUniform(&mut self, uniform: ShaderUniformDeclaration)
        requires
            old(self).wf(),
            !old(self).is_finalized,
            uniform.byte_offset == old(self).size,
            uniform.size == spec_uniform_type_size(uniform.utype),
            old(self).size + uniform.size <= u32::MAX,
        ensures
            final(self).wf(),
            final(self).uniforms@ == old(self).uniforms@.push(uniform),
            final(self).size == old(self).size + uniform.size,
            final(self).name == old(self).name,
            final(self).register == old(self).register,
            final(self).stage == old(self).stage,
            !final(self).is_finalized,
    {
        proof {
            let us = self.uniforms@;
            assert(us.push(uniform).drop_last() =~= us);
            assert forall|i: int| 0 <= i < us.push(uniform).len() implies (#[trigger] us.push(
                uniform,
            )[i]).byte_offset as int == sum_sizes(us.push(uniform).take(i)) by {
                if i < us.len() {
                    assert(us.push(uniform).take(i) =~= us.take(i));
                    assert(us.push(uniform)[i] == us[i]);
                } else {
                    assert(us.push(uniform).take(i) =~= us);
                }
            }
        }
        self.size = self.size + uniform.size;
        self.uniforms.push(uniform);
    }

    /// First declared uniform with the given name, if any.
    pub fn FindUniform(&self, name: &str) -> (r: Option<&ShaderUniformDeclaration>)
        ensures
            match r {
                Some(u) => spec_find_uniform(self.uniforms@, name@) == Some(*u),
                None => spec_find_uniform(self.uniforms@, name@) is None,
            },
    {
        let n = self.uniforms.len();
        let mut i: usize = 0;
        proof {
            assert(self.uniforms@.skip(0) =~= self.uniforms@);
        }
        while i < n
            invariant
                n == self.uniforms@.len(),
                i <= n,
                spec_find_uniform(self.uniforms@, name@) == spec_find_uniform(
                    self.uniforms@.skip(i as int),
                    name@,
                ),
            decreases n - i,
        {
            proof {
                assert(self.uniforms@.skip(i as int)[0] == self.uniforms@[i as int]);
                assert(self.uniforms@.skip(i as int).drop_first() =~= self.uniforms@.skip(
                    i as int + 1,
                ));
            }
            if str_eq(self.uniforms[i].name.as_str(), name) {
                return Some(&self.uniforms[i]);
            }
            i = i + 1;
        }
        proof {
            assert(self.uniforms@.skip(n as int) =~= Seq::<
                ShaderUniformDeclaration,
            >::empty());
        }
        None
    }

    /// Seals the layout and pads its size to the next multiple of 16.
    pub fn Finalize(&mut self)
        requires
            old(self).wf(),
            !old(self).is_finalized,
            old(self).size + 15 <= u32::MAX,
        ensures
            final(self).wf(),
            final(self).is_finalized,
            final(self).size as int == round_up16(old(self).size as int),
            final(self).uniforms@ == old(self).uniforms@,
            final(self).name == old(self).name,
            final(self).register == old(self).register,
            final(self).stage == old(self).stage,
    {
        self.is_finalized = true;
        self.size = ((self.size + 15) / 16) * 16;
    }

    pub fn GetBufferName(&self) -> (r: &String)
        ensures
            r == &self.name,
    {
        &self.name
    }

    pub fn GetRegister(&self) -> (r: u32)
        ensures
            r == self.register,
    {
        self.register
    }

    pub fn GetSize(&self) -> (r: u32)
        ensures
            r == self.size,
    {
        self.size
    }

    pub fn GetShaderType(&self) -> (r: ShaderType)
        ensures
            r == self.stage,
    {
        self.stage
    }

    pub fn GetUniforms(&self) -> (r: &Vec<ShaderUniformDeclaration>)
        ensures
            r == &self.uniforms,
    {
        &self.uniforms
    }
}

/// A prefix of the uniforms weighs no more than all of them.
pub proof fn lemma_sum_take_le(us: Seq<ShaderUniformDeclaration>, j: int)
    requires
        0 <= j <= us.len(),
    ensures
        sum_sizes(us.take(j)) <= sum_sizes(us),
    decreases us.len() - j,
{
    if j == us.len() {
        assert(us.take(j) =~= us);
    } else {
        assert(us.take(j + 1).drop_last() =~= us.take(j));
        assert(us.take(j + 1).last() == us[j]);
        lemma_sum_take_le(us, j + 1);
    }
}

/// Every uniform of a finalized well-formed buffer lies within the buffer's
/// size.
pub proof fn lemma_cb_uniform_fits(cb: ConstantBufferDeclaration, i: int)
    requires
        cb.wf(),
        cb.is_finalized,
        0 <= i < cb.uniforms@.len(),
    ensures
        cb.uniforms@[i].byte_offset + cb.uniforms@[i].size <= cb.size,
{
    let us = cb.uniforms@;
    assert(us.take(i + 1).drop_last() =~= us.take(i));
    assert(us.take(i + 1).last() == us[i]);
    lemma_sum_take_le(us, i + 1);
    lemma_sum_sizes_nonneg(us);
    let raw = sum_sizes(us);
    assert(((raw + 15) / 16) * 16 >= raw) by (nonlinear_arith)
        requires
            raw >= 0,
    ;
}

/// Alignment law: a finalized well-formed buffer's size is a multiple of 16
/// and no smaller than the raw sum of its uniforms' sizes.
pub proof fn lemma_finalized_alignment(cb: ConstantBufferDeclaration)
    requires
        cb.wf(),
        cb.is_finalized,
    ensures
        cb.size as int % 16 == 0,
        cb.size as int >= sum_sizes(cb.uniforms@),
{
    let raw = sum_sizes(cb.uniforms@);
    lemma_sum_sizes_nonneg(cb.uniforms@);
    let q = (raw + 15) / 16;
    assert(q * 16 % 16 == 0) by (nonlinear_arith);
    assert(q * 16 >= raw) by (nonlinear_arith)
        requires
            raw >= 0,
            q == (raw + 15) / 16,
    ;
}

/// Offset-monotonicity law: in a well-formed buffer, each uniform starts
/// exactly where the previous one ends.
pub proof fn lemma_offset_monotonic(cb: ConstantBufferDeclaration, i: int)
    requires
        cb.wf(),
        0 <= i,
        i + 1 < cb.uniforms@.len(),
    ensures
        cb.uniforms@[i + 1].byte_offset == cb.uniforms@[i].byte_offset + cb.uniforms@[i].size,
{
    let us = cb.uniforms@;
    assert(us.take(i + 1).drop_last() =~= us.take(i));
    assert(us.take(i + 1).last() == us[i]);
    assert(sum_sizes(us.take(i + 1)) == sum_sizes(us.take(i)) + us[i].size);
}

} // verus!
