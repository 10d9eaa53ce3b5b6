//! The shader library: every loaded graphics and compute shader, keyed by
//! name.  Adding a shader under an existing name replaces it, as a map
//! insert would; lookups return the entry by name.

use vstd::prelude::*;
use crate::shader_types::str_eq;
use crate::shader::{Shader, ComputeShader};

verus! {

/// First shader with the given name.
pub open spec fn spec_find_shader(ss: Seq<Shader>, name: Seq<char>) -> Option<Shader>
    decreases ss.len(),
{
    if ss.len() == 0 {
        None
    } else if ss[0].name@ == name {
        Some(ss[0])
    } else {
        spec_find_shader(ss.drop_first(), name)
    }
}

/// First compute shader with the given name.
pub open spec fn spec_find_compute_shader(ss: Seq<ComputeShader>, name: Seq<char>) -> Option<
    ComputeShader,
>
    decreases ss.len(),
{
    if ss.len() == 0 {
        None
    } else if ss[0].name@ == name {
        Some(ss[0])
    } else {
        spec_find_compute_shader(ss.drop_first(), name)
    }
}

/// The shader list after storing `s`: the first entry of the same name is
/// replaced, else `s` is appended.
pub open spec fn spec_add_shader(ss: Seq<Shader>, s: Shader) -> Seq<Shader>
    decreases ss.len(),
{
    if ss.len() == 0 {
        seq![s]
    } else if ss[0].name@ == s.name@ {
        seq![s] + ss.drop_first()
    } else {
        seq![ss[0]] + spec_add_shader(ss.drop_first(), s)
    }
}

/// The compute-shader list after storing `s`.
pub open spec fn spec_add_compute_shader(ss: Seq<ComputeShader>, s: ComputeShader) -> Seq<
    ComputeShader,
>
    decreases ss.len(),
{
    if ss.len() == 0 {
        seq![s]
    } else if ss[0].name@ == s.name@ {
        seq![s] + ss.drop_first()
    } else {
        seq![ss[0]] + spec_add_compute_shader(ss.drop_first(), s)
    }
}

/// Storing a shader makes it the one found under its name and leaves every
/// other name's lookup unchanged.
pub proof fn lemma_find_after_add_shader(ss: Seq<Shader>, s: Shader, name: Seq<char>)
    ensures
        spec_find_shader(spec_add_shader(ss, s), name) == if s.name@ == name {
            Some(s)
        } else {
            spec_find_shader(ss, name)
        },
    decreases ss.len(),
{
    if ss.len() == 0 {
        assert(spec_add_shader(ss, s) =~= seq![s]);
        assert(seq![s].drop_first() =~= Seq::<Shader>::empty());
    } else if ss[0].name@ == s.name@ {
        let added = spec_add_shader(ss, s);
        assert(added[0] == s);
        assert(added.drop_first() =~= ss.drop_first());
    } else {
        let added = spec_add_shader(ss, s);
        assert(added[0] == ss[0]);
        assert(added.drop_first() =~= spec_add_shader(ss.drop_first(), s));
        lemma_find_after_add_shader(ss.drop_first(), s, name);
    }
}

/// The compute-shader twin of the lookup-after-store law.
pub proof fn lemma_find_after_add_compute_shader(
    ss: Seq<ComputeShader>,
    s: ComputeShader,
    name: Seq<char>,
)
    ensures
        spec_find_compute_shader(spec_add_compute_shader(ss, s), name) == if s.name@ == name {
            Some(s)
        } else {
            spec_find_compute_shader(ss, name)
        },
    decreases ss.len(),
{
    if ss.len() == 0 {
        assert(spec_add_compute_shader(ss, s) =~= seq![s]);
        assert(seq![s].drop_first() =~= Seq::<ComputeShader>::empty());
    } else if ss[0].name@ == s.name@ {
        let added = spec_add_compute_shader(ss, s);
        assert(added[0] == s);
        assert(added.drop_first() =~= ss.drop_first());
    } else {
        let added = spec_add_compute_shader(ss, s);
        assert(added[0] == ss[0]);
        assert(added.drop_first() =~= spec_add_compute_shader(ss.drop_first(), s));
        lemma_find_after_add_compute_shader(ss.drop_first(), s, name);
    }
}

/// When the first `i` entries have other names and entry `i` shares the
/// name, the store replaces entry `i`.
proof fn lemma_add_shader_update(ss: Seq<Shader>, s: Shader, i: int)
    requires
        0 <= i < ss.len(),
        ss[i].name@ == s.name@,
        forall|j: int| 0 <= j < i ==> (#[trigger] ss[j]).name@ != s.name@,
    ensures
        spec_add_shader(ss, s) == ss.update(i, s),
    decreases i,
{
    if i == 0 {
        assert(spec_add_shader(ss, s) =~= ss.update(0, s));
    } else {
        assert forall|j: int| 0 <= j < i - 1 implies (#[trigger] ss.drop_first()[j]).name@
            != s.name@ by {
            assert(ss.drop_first()[j] == ss[j + 1]);
        }
        assert(ss.drop_first()[i - 1] == ss[i]);
        lemma_add_shader_update(ss.drop_first(), s, i - 1);
        assert(spec_add_shader(ss, s) =~= ss.update(i, s));
    }
}

/// When no entry shares the name, the store appends.
proof fn lemma_add_shader_push(ss: Seq<Shader>, s: Shader)
    requires
        forall|j: int| 0 <= j < ss.len() ==> (#[trigger] ss[j]).name@ != s.name@,
    ensures
        spec_add_shader(ss, s) == ss.push(s),
    decreases ss.len(),
{
    if ss.len() == 0 {
        assert(spec_add_shader(ss, s) =~= ss.push(s));
    } else {
        assert forall|j: int| 0 <= j < ss.drop_first().len() implies (
        #[trigger] ss.drop_first()[j]).name@ != s.name@ by {
            assert(ss.drop_first()[j] == ss[j + 1]);
        }
        lemma_add_shader_push(ss.drop_first(), s);
        assert(spec_add_shader(ss, s) =~= ss.push(s));
    }
}

proof fn lemma_add_compute_shader_update(ss: Seq<ComputeShader>, s: ComputeShader, i: int)
    requires
        0 <= i < ss.len(),
        ss[i].name@ == s.name@,
        forall|j: int| 0 <= j < i ==> (#[trigger] ss[j]).name@ != s.name@,
    ensures
        spec_add_compute_shader(ss, s) == ss.update(i, s),
    decreases i,
{
    if i == 0 {
        assert(spec_add_compute_shader(ss, s) =~= ss.update(0, s));
    } else {
        assert forall|j: int| 0 <= j < i - 1 implies (#[trigger] ss.drop_first()[j]).name@
            != s.name@ by {
            assert(ss.drop_first()[j] == ss[j + 1]);
        }
        assert(ss.drop_first()[i - 1] == ss[i]);
        lemma_add_compute_shader_update(ss.drop_first(), s, i - 1);
        assert(spec_add_compute_shader(ss, s) =~= ss.update(i, s));
    }
}

proof fn lemma_add_compute_shader_push(ss: Seq<ComputeShader>, s: ComputeShader)
    requires
        forall|j: int| 0 <= j < ss.len() ==> (#[trigger] ss[j]).name@ != s.name@,
    ensures
        spec_add_compute_shader(ss, s) == ss.push(s),
    decreases ss.len(),
{
    if ss.len() == 0 {
        assert(spec_add_compute_shader(ss, s) =~= ss.push(s));
    } else {
        assert forall|j: int| 0 <= j < ss.drop_first().len() implies (
        #[trigger] ss.drop_first()[j]).name@ != s.name@ by {
            assert(ss.drop_first()[j] == ss[j + 1]);
        }
        lemma_add_compute_shader_push(ss.drop_first(), s);
        assert(spec_add_compute_shader(ss, s) =~= ss.push(s));
    }
}

/// All loaded shaders of a device context.
pub struct ShaderLibrary {
    pub shaders: Vec<Shader>,
    pub compute_shaders: Vec<ComputeShader>,
}

impl ShaderLibrary {
    /// Every stored shader is well formed.
    pub open spec fn wf(self) -> bool {
        &&& forall|i: int| 0 <= i < self.shaders@.len() ==> (#[trigger] self.shaders@[i]).wf()
        &&& forall|i: int|
            0 <= i < self.compute_shaders@.len() ==> (#[trigger] self.compute_shaders@[i]).wf()
    }

    pub fn Create() -> (r: ShaderLibrary)
        ensures
            r.wf(),
            r.shaders@.len() == 0,
            r.compute_shaders@.len() == 0,
    {
        ShaderLibrary { shaders: Vec::new(), compute_shaders: Vec::new() }
    }

    /// Stores a shader under its name, replacing a previous shader of the
    /// same name.
    pub fn AddShader(&mut self, shader: Shader)
        requires
            old(self).wf(),
            shader.wf(),
        ensures
            final(self).wf(),
            final(self).compute_shaders@ == old(self).compute_shaders@,
            final(self).shaders@ == spec_add_shader(old(self).shaders@, shader),
            spec_find_shader(final(self).shaders@, shader.name@) matches Some(s) && s.name@
                == shader.name@ && s.reflection == shader.reflection,
    {
        let n = self.shaders.len();
        let mut i: usize = 0;
        while i < n
            invariant
                old(self).wf(),
                shader.wf(),
                *self == *old(self),
                n == self.shaders@.len(),
                i <= n,
                forall|j: int| 0 <= j < i ==> (#[trigger] self.shaders@[j]).name@ != shader.name@,
            decreases n - i,
        {
            if str_eq(self.shaders[i].name.as_str(), shader.GetName().as_str()) {
                let ghost pre = self.shaders@;
                self.shaders.set(i, shader);
                proof {
                    lemma_add_shader_update(pre, shader, i as int);
                    lemma_find_shader_at(self.shaders@, i as int);
                    assert forall|j: int| 0 <= j < self.shaders@.len() implies (#[trigger] self
                        .shaders@[j]).wf() by {
                        if j != i {
                            assert(self.shaders@[j] == pre[j]);
                        }
                    }
                }
                return ;
            }
            i = i + 1;
        }
        let ghost pre = self.shaders@;
        self.shaders.push(shader);
        proof {
            lemma_add_shader_push(pre, self.shaders@[pre.len() as int]);
            lemma_find_shader_at(self.shaders@, pre.len() as int);
        }
    }

    /// Stores a compute shader under its name, replacing a previous one of
    /// the same name.
    pub fn AddComputeShader(&mut self, shader: ComputeShader)
        requires
            old(self).wf(),
            shader.wf(),
        ensures
            final(self).wf(),
            final(self).shaders@ == old(self).shaders@,
            final(self).compute_shaders@ == spec_add_compute_shader(
                old(self).compute_shaders@,
                shader,
            ),
            spec_find_compute_shader(final(self).compute_shaders@, shader.name@) matches Some(s)
                && s.name@ == shader.name@ && s.reflection == shader.reflection,
    {
        let n = self.compute_shaders.len();
        let mut i: usize = 0;
        while i < n
            invariant
                old(self).wf(),
                shader.wf(),
                *self == *old(self),
                n == self.compute_shaders@.len(),
                i <= n,
                forall|j: int|
                    0 <= j < i ==> (#[trigger] self.compute_shaders@[j]).name@ != shader.name@,
            decreases n - i,
        {
            if str_eq(self.compute_shaders[i].name.as_str(), shader.GetName().as_str()) {
                let ghost pre = self.compute_shaders@;
                self.compute_shaders.set(i, shader);
                proof {
                    lemma_add_compute_shader_update(pre, shader, i as int);
                    lemma_find_compute_shader_at(self.compute_shaders@, i as int);
                    assert forall|j: int| 0 <= j < self.compute_shaders@.len() implies (
                    #[trigger] self.compute_shaders@[j]).wf() by {
                        if j != i {
                            assert(self.compute_shaders@[j] == pre[j]);
                        }
                    }
                }
                return ;
            }
            i = i + 1;
        }
        let ghost pre = self.compute_shaders@;
        self.compute_shaders.push(shader);
        proof {
            lemma_add_compute_shader_push(pre, self.compute_shaders@[pre.len() as int]);
            lemma_find_compute_shader_at(self.compute_shaders@, pre.len() as int);
        }
    }

    /// The shader stored under the given name, if any.
    pub fn GetShader(&self, name: &str) -> (r: Option<&Shader>)
        ensures
            match r {
                Some(s) => spec_find_shader(self.shaders@, name@) == Some(*s),
                None => spec_find_shader(self.shaders@, name@) is None,
            },
    {
        let n = self.shaders.len();
        let mut i: usize = 0;
        proof {
            assert(self.shaders@.skip(0) =~= self.shaders@);
        }
        while i < n
            invariant
                n == self.shaders@.len(),
                i <= n,
                spec_find_shader(self.shaders@, name@) == spec_find_shader(
                    self.shaders@.skip(i as int),
                    name@,
                ),
            decreases n - i,
        {
            proof {
                assert(self.shaders@.skip(i as int)[0] == self.shaders@[i as int]);
                assert(self.shaders@.skip(i as int).drop_first() =~= self.shaders@.skip(
                    i as int + 1,
                ));
            }
            if str_eq(self.shaders[i].name.as_str(), name) {
                return Some(&self.shaders[i]);
            }
            i = i + 1;
        }
        proof {
            assert(self.shaders@.skip(n as int) =~= Seq::<Shader>::empty());
        }
        None
    }

    /// The compute shader stored under the given name, if any.
    pub fn GetComputeShader(&self, name: &str) -> (r: Option<&ComputeShader>)
        ensures
            match r {
                Some(s) => spec_find_compute_shader(self.compute_shaders@, name@) == Some(*s),
                None => spec_find_compute_shader(self.compute_shaders@, name@) is None,
            },
    {
        let n = self.compute_shaders.len();
        let mut i: usize = 0;
        proof {
            assert(self.compute_shaders@.skip(0) =~= self.compute_shaders@);
        }
        while i < n
            invariant
                n == self.compute_shaders@.len(),
                i <= n,
                spec_find_compute_shader(self.compute_shaders@, name@) == spec_find_compute_shader(
                    self.compute_shaders@.skip(i as int),
                    name@,
                ),
            decreases n - i,
        {
            proof {
                assert(self.compute_shaders@.skip(i as int)[0] == self.compute_shaders@[i as int]);
                assert(self.compute_shaders@.skip(i as int).drop_first()
                    =~= self.compute_shaders@.skip(i as int + 1));
            }
            if str_eq(self.compute_shaders[i].name.as_str(), name) {
                return Some(&self.compute_shaders[i]);
            }
            i = i + 1;
        }
        proof {
            assert(self.compute_shaders@.skip(n as int) =~= Seq::<ComputeShader>::empty());
        }
        None
    }
}

/// When every stored shader is well formed, so is a found one.
pub proof fn lemma_find_shader_wf(ss: Seq<Shader>, name: Seq<char>)
    requires
        forall|i: int| 0 <= i < ss.len() ==> (#[trigger] ss[i]).wf(),
        spec_find_shader(ss, name) is Some,
    ensures
        spec_find_shader(ss, name)->Some_0.wf(),
    decreases ss.len(),
{
    if ss.len() > 0 && ss[0].name@ != name {
        assert forall|j: int| 0 <= j < ss.drop_first().len() implies (#[trigger] ss.drop_first()[j]).wf() by {
            assert(ss.drop_first()[j] == ss[j + 1]);
        }
        lemma_find_shader_wf(ss.drop_first(), name);
    }
}

/// A found shader carries the name it was looked up by.
pub proof fn lemma_find_shader_name(ss: Seq<Shader>, name: Seq<char>)
    requires
        spec_find_shader(ss, name) is Some,
    ensures
        spec_find_shader(ss, name)->Some_0.name@ == name,
    decreases ss.len(),
{
    if ss.len() > 0 && ss[0].name@ != name {
        lemma_find_shader_name(ss.drop_first(), name);
    }
}

/// A found compute shader carries the name it was looked up by.
pub proof fn lemma_find_compute_shader_name(ss: Seq<ComputeShader>, name: Seq<char>)
    requires
        spec_find_compute_shader(ss, name) is Some,
    ensures
        spec_find_compute_shader(ss, name)->Some_0.name@ == name,
    decreases ss.len(),
{
    if ss.len() > 0 && ss[0].name@ != name {
        lemma_find_compute_shader_name(ss.drop_first(), name);
    }
}

/// When every earlier shader has another name, the find resolves to index
/// `at`.
proof fn lemma_find_shader_at(ss: Seq<Shader>, at: int)
    requires
        0 <= at < ss.len(),
        forall|j: int| 0 <= j < at ==> (#[trigger] ss[j]).name@ != ss[at].name@,
    ensures
        spec_find_shader(ss, ss[at].name@) == Some(ss[at]),
    decreases at,
{
    if at > 0 {
        assert(ss.drop_first()[at - 1] == ss[at]);
        assert forall|j: int| 0 <= j < at - 1 implies (#[trigger] ss.drop_first()[j]).name@
            != ss.drop_first()[at - 1].name@ by {
            assert(ss.drop_first()[j] == ss[j + 1]);
        }
        lemma_find_shader_at(ss.drop_first(), at - 1);
    }
}

proof fn lemma_find_compute_shader_at(ss: Seq<ComputeShader>, at: int)
    requires
        0 <= at < ss.len(),
        forall|j: int| 0 <= j < at ==> (#[trigger] ss[j]).name@ != ss[at].name@,
    ensures
        spec_find_compute_shader(ss, ss[at].name@) == Some(ss[at]),
    decreases at,
{
    if at > 0 {
        assert(ss.drop_first()[at - 1] == ss[at]);
        assert forall|j: int| 0 <= j < at - 1 implies (#[trigger] ss.drop_first()[j]).name@
            != ss.drop_first()[at - 1].name@ by {
            assert(ss.drop_first()[j] == ss[j + 1]);
        }
        lemma_find_compute_shader_at(ss.drop_first(), at - 1);
    }
}

} // verus!
