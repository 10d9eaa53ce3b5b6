//! Shaders as the renderer sees them: a name, the reflected constant-buffer
//! layouts and resource declarations, and one buffer slot per constant-buffer
//! register, sized from the reflected layouts.  Compiling the GPU program
//! itself happens outside this library; reflection and buffer sizing are
//! verified here.

use vstd::prelude::*;
use vstd::pervasive::VecAdditionalExecFns;
use crate::shader_types::ShaderType;
use crate::shader_uniform::{ConstantBufferDeclaration, CBufV};
use crate::shader_resource::ShaderResourceDeclaration;
use crate::reflect::{
    ReflectError, ReflectionV, ComputeReflectionV, ShaderReflection, ComputeReflection,
    ReflectShaderSource,
    ReflectComputeSource, spec_reflect_shader, spec_reflect_compute, cb_props,
    lemma_reflect_stages_ok, stages_ok,
};

verus! {

/// Why building a shader from source failed.
#[derive(Clone, Copy, Debug, PartialEq, Eq, Structural)]
pub enum ShaderError {
    /// Reflection rejected the source text.
    Reflect(ReflectError),
    /// A reflected buffer's register lies beyond the shader's buffer slots.
    RegisterOutOfRange,
}

/// Writes a buffer's size into its register's slot.
pub open spec fn spec_fill_slot(slots: Seq<Option<u32>>, register: u32, size: u32) -> Result<
    Seq<Option<u32>>,
    ShaderError,
> {
    if register >= slots.len() {
        Err(ShaderError::RegisterOutOfRange)
    } else {
        Ok(slots.update(register as int, Some(size)))
    }
}

pub open spec fn spec_fill_system_slots(slots: Seq<Option<u32>>, bufs: Seq<CBufV>) -> Result<
    Seq<Option<u32>>,
    ShaderError,
>
    decreases bufs.len(),
{
    if bufs.len() == 0 {
        Ok(slots)
    } else {
        match spec_fill_slot(slots, bufs[0].register, bufs[0].size) {
            Ok(s2) => spec_fill_system_slots(s2, bufs.drop_first()),
            Err(e) => Err(e),
        }
    }
}

/// One slot per constant-buffer register of a stage: as many slots as the
/// stage has buffers, the material buffer's and each system buffer's size
/// written at its register.
pub open spec fn spec_buffer_slots(material: Option<CBufV>, system: Seq<CBufV>) -> Result<
    Seq<Option<u32>>,
    ShaderError,
> {
    let count = system.len() + (if material is Some {
        1int
    } else {
        0int
    });
    let init = Seq::new(count as nat, |i: int| None::<u32>);
    match material {
        Some(cb) => match spec_fill_slot(init, cb.register, cb.size) {
            Ok(s1) => spec_fill_system_slots(s1, system),
            Err(e) => Err(e),
        },
        None => spec_fill_system_slots(init, system),
    }
}

/// Builds the slot vector of one stage.
fn build_slots(material: &Option<ConstantBufferDeclaration>, system: &Vec<
    ConstantBufferDeclaration,
>) -> (r: Result<Vec<Option<u32>>, ShaderError>)
    ensures
        ({
            let spec_material = match material {
                Some(cb) => Some(cb.deep_view()),
                None => None,
            };
            match r {
                Ok(v) => spec_buffer_slots(spec_material, system.deep_view()) == Ok::<
                    Seq<Option<u32>>,
                    ShaderError,
                >(v@),
                Err(e) => e == ShaderError::RegisterOutOfRange && spec_buffer_slots(
                    spec_material,
                    system.deep_view(),
                ) == Err::<Seq<Option<u32>>, ShaderError>(e),
            }
        }),
{
    let ghost spec_material: Option<CBufV> = match material {
        Some(cb) => Some(cb.deep_view()),
        None => None,
    };
    let ghost sv = system.deep_view();
    let mut slots: Vec<Option<u32>> = Vec::new();
    let n = system.len();
    let mut k: usize = 0;
    while k < n
        invariant
            n == system@.len(),
            k <= n,
            slots@.len() == k,
            forall|i: int| 0 <= i < k ==> slots@[i] is None,
        decreases n - k,
    {
        slots.push(None);
        k = k + 1;
    }
    if material.is_some() {
        slots.push(None);
    }
    let ghost count = sv.len() + (if spec_material is Some {
        1int
    } else {
        0int
    });
    proof {
        assert(slots@ =~= Seq::new(count as nat, |i: int| None::<u32>));
    }
    match material {
        Some(cb) => {
            let reg = cb.GetRegister();
            if reg as usize >= slots.len() {
                return Err(ShaderError::RegisterOutOfRange);
            }
            let sz = cb.GetSize();
            slots.set(reg as usize, Some(sz));
        },
        None => {},
    }
    let ghost s1 = slots@;
    let mut k2: usize = 0;
    proof {
        assert(sv.skip(0) =~= sv);
    }
    while k2 < n
        invariant
            n == system@.len(),
            system.deep_view() == sv,
            spec_material == match material {
                Some(cb) => Some(cb.deep_view()),
                None => None,
            },
            k2 <= n,
            spec_buffer_slots(spec_material, sv) == spec_fill_system_slots(
                slots@,
                sv.skip(k2 as int),
            ),
        decreases n - k2,
    {
        proof {
            assert(sv.skip(k2 as int)[0] == sv[k2 as int]);
            assert(sv.skip(k2 as int).drop_first() =~= sv.skip(k2 as int + 1));
            assert(system@[k2 as int].deep_view() == sv[k2 as int]);
        }
        let cb = &system[k2];
        let reg = cb.GetRegister();
        if reg as usize >= slots.len() {
            return Err(ShaderError::RegisterOutOfRange);
        }
        let sz = cb.GetSize();
        slots.set(reg as usize, Some(sz));
        k2 = k2 + 1;
    }
    proof {
        assert(sv.skip(n as int) =~= Seq::<CBufV>::empty());
    }
    Ok(slots)
}

/// A graphics shader: reflected layouts plus per-stage buffer slots.
pub struct Shader {
    pub name: String,
    pub reflection: ShaderReflection,
    pub vs_buffer_slots: Vec<Option<u32>>,
    pub ps_buffer_slots: Vec<Option<u32>>,
}

impl Shader {
    /// Reflection is well formed, every material-buffer uniform carries its
    /// buffer's stage and register, and the slot vectors are the ones the
    /// reflected layouts call for.
    pub open spec fn wf(self) -> bool {
        &&& self.reflection.wf()
        &&& match self.reflection.vs_material_buffer {
            Some(cb) => cb_props(cb.deep_view(), ShaderType::VS),
            None => true,
        }
        &&& match self.reflection.ps_material_buffer {
            Some(cb) => cb_props(cb.deep_view(), ShaderType::PS),
            None => true,
        }
        &&& spec_buffer_slots(
            match self.reflection.vs_material_buffer {
                Some(cb) => Some(cb.deep_view()),
                None => None,
            },
            self.reflection.vs_system_buffers.deep_view(),
        ) == Ok::<Seq<Option<u32>>, ShaderError>(self.vs_buffer_slots@)
        &&& spec_buffer_slots(
            match self.reflection.ps_material_buffer {
                Some(cb) => Some(cb.deep_view()),
                None => None,
            },
            self.reflection.ps_system_buffers.deep_view(),
        ) == Ok::<Seq<Option<u32>>, ShaderError>(self.ps_buffer_slots@)
    }

    /// Builds a shader from source text: reflects it and sizes one buffer
    /// slot per constant-buffer register of each stage.  Fails exactly when
    /// reflection rejects the source or a register lies beyond the slots.
    pub fn FromSource(name: &str, source: &str) -> (r: Result<Shader, ShaderError>)
        ensures
            match r {
                Ok(sh) => {
                    &&& sh.wf()
                    &&& sh.name@ == name@
                    &&& spec_reflect_shader(source@) == Ok::<ReflectionV, ReflectError>(
                        sh.reflection.deep_view(),
                    )
                },
                Err(e) => match e {
                    ShaderError::Reflect(re) => spec_reflect_shader(source@) == Err::<
                        ReflectionV,
                        ReflectError,
                    >(re),
                    ShaderError::RegisterOutOfRange => spec_reflect_shader(source@) is Ok,
                },
            },
    {
        let reflection = match ReflectShaderSource(source) {
            Ok(refl) => refl,
            Err(e) => {
                return Err(ShaderError::Reflect(e));
            },
        };
        proof {
            lemma_reflect_stages_ok(source@);
        }
        let vs_buffer_slots = match build_slots(
            &reflection.vs_material_buffer,
            &reflection.vs_system_buffers,
        ) {
            Ok(v) => v,
            Err(e) => {
                return Err(e);
            },
        };
        let ps_buffer_slots = match build_slots(
            &reflection.ps_material_buffer,
            &reflection.ps_system_buffers,
        ) {
            Ok(v) => v,
            Err(e) => {
                return Err(e);
            },
        };
        Ok(Shader { name: name.to_owned(), reflection, vs_buffer_slots, ps_buffer_slots })
    }

    pub fn GetName(&self) -> (r: &String)
        ensures
            r == &self.name,
    {
        &self.name
    }

    pub fn GetVSMaterialConstantBuffer(&self) -> (r: &Option<ConstantBufferDeclaration>)
        ensures
            r == &self.reflection.vs_material_buffer,
    {
        &self.reflection.vs_material_buffer
    }

    pub fn GetVSSystemConstantBuffers(&self) -> (r: &Vec<ConstantBufferDeclaration>)
        ensures
            r == &self.reflection.vs_system_buffers,
    {
        &self.reflection.vs_system_buffers
    }

    pub fn GetPSMaterialConstantBuffer(&self) -> (r: &Option<ConstantBufferDeclaration>)
        ensures
            r == &self.reflection.ps_material_buffer,
    {
        &self.reflection.ps_material_buffer
    }

    pub fn GetPSSystemConstantBuffers(&self) -> (r: &Vec<ConstantBufferDeclaration>)
        ensures
            r == &self.reflection.ps_system_buffers,
    {
        &self.reflection.ps_system_buffers
    }

    pub fn GetMaterialResources(&self) -> (r: &Vec<ShaderResourceDeclaration>)
        ensures
            r == &self.reflection.material_resources,
    {
        &self.reflection.material_resources
    }

    pub fn GetSystemResources(&self) -> (r: &Vec<ShaderResourceDeclaration>)
        ensures
            r == &self.reflection.system_resources,
    {
        &self.reflection.system_resources
    }
}

/// Filling system slots never changes how many slots there are.
proof fn lemma_fill_system_len(slots: Seq<Option<u32>>, bufs: Seq<CBufV>)
    requires
        spec_fill_system_slots(slots, bufs) is Ok,
    ensures
        spec_fill_system_slots(slots, bufs)->Ok_0.len() == slots.len(),
    decreases bufs.len(),
{
    if bufs.len() > 0 {
        match spec_fill_slot(slots, bufs[0].register, bufs[0].size) {
            Ok(s2) => {
                lemma_fill_system_len(s2, bufs.drop_first());
            },
            Err(_) => {},
        }
    }
}

/// In a well-formed shader, each stage's material constant buffer names one
/// of that stage's buffer slots.
pub proof fn lemma_material_register_in_slots(sh: Shader)
    requires
        sh.wf(),
    ensures
        match sh.reflection.vs_material_buffer {
            Some(cb) => cb.register < sh.vs_buffer_slots@.len(),
            None => true,
        },
        match sh.reflection.ps_material_buffer {
            Some(cb) => cb.register < sh.ps_buffer_slots@.len(),
            None => true,
        },
{
    match sh.reflection.vs_material_buffer {
        Some(cb) => {
            let sys = sh.reflection.vs_system_buffers.deep_view();
            let count = sys.len() + 1;
            let init = Seq::new(count as nat, |i: int| None::<u32>);
            let s1 = spec_fill_slot(init, cb.register, cb.size)->Ok_0;
            lemma_fill_system_len(s1, sys);
        },
        None => {},
    }
    match sh.reflection.ps_material_buffer {
        Some(cb) => {
            let sys = sh.reflection.ps_system_buffers.deep_view();
            let count = sys.len() + 1;
            let init = Seq::new(count as nat, |i: int| None::<u32>);
            let s1 = spec_fill_slot(init, cb.register, cb.size)->Ok_0;
            lemma_fill_system_len(s1, sys);
        },
        None => {},
    }
}

/// A compute shader: reflected layouts plus one slot per buffer register.
pub struct ComputeShader {
    pub name: String,
    pub reflection: ComputeReflection,
    pub buffer_slots: Vec<Option<u32>>,
}

impl ComputeShader {
    pub open spec fn wf(self) -> bool {
        &&& self.reflection.wf()
        &&& spec_buffer_slots(None, self.reflection.buffers.deep_view()) == Ok::<
            Seq<Option<u32>>,
            ShaderError,
        >(self.buffer_slots@)
    }

    /// Builds a compute shader from source text.
    pub fn FromSource(name: &str, source: &str) -> (r: Result<ComputeShader, ShaderError>)
        ensures
            match r {
                Ok(sh) => {
                    &&& sh.wf()
                    &&& sh.name@ == name@
                    &&& spec_reflect_compute(source@) == Ok::<ComputeReflectionV, ReflectError>(
                        sh.reflection.deep_view(),
                    )
                },
                Err(e) => match e {
                    ShaderError::Reflect(re) => spec_reflect_compute(source@) == Err::<
                        ComputeReflectionV,
                        ReflectError,
                    >(re),
                    ShaderError::RegisterOutOfRange => spec_reflect_compute(source@) is Ok,
                },
            },
    {
        let reflection = match ReflectComputeSource(source) {
            Ok(refl) => refl,
            Err(e) => {
                return Err(ShaderError::Reflect(e));
            },
        };
        let buffer_slots = match build_slots(&None, &reflection.buffers) {
            Ok(v) => v,
            Err(e) => {
                return Err(e);
            },
        };
        Ok(ComputeShader { name: name.to_owned(), reflection, buffer_slots })
    }

    pub fn GetName(&self) -> (r: &String)
        ensures
            r == &self.name,
    {
        &self.name
    }

    pub fn GetConstantBufferDeclarations(&self) -> (r: &Vec<ConstantBufferDeclaration>)
        ensures
            r == &self.reflection.buffers,
    {
        &self.reflection.buffers
    }

    pub fn GetResources(&self) -> (r: &Vec<ShaderResourceDeclaration>)
        ensures
            r == &self.reflection.resources,
    {
        &self.reflection.resources
    }
}

} // verus!
