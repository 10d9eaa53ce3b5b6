//! Resource declarations (textures and samplers) discovered by shader
//! reflection, with the binding register each one was declared on.

use vstd::prelude::*;
use crate::shader_types::ShaderResourceType;

verus! {

/// Ghost image of a `ShaderResourceDeclaration`.
#[verifier::ext_equal]
pub struct ResourceV {
    pub name: Seq<char>,
    pub rtype: ShaderResourceType,
    pub register: u32,
}

/// One texture or sampler declaration of a shader.
pub struct ShaderResourceDeclaration {
    pub name: String,
    pub rtype: ShaderResourceType,
    pub register: u32,
}

impl DeepView for ShaderResourceDeclaration {
    type V = ResourceV;

    open spec fn deep_view(&self) -> ResourceV {
        ResourceV { name: self.name@, rtype: self.rtype, register: self.register }
    }
}

impl ShaderResourceDeclaration {
    /// Builds a resource declaration.
    pub fn Create(name: &str, resourceType: ShaderResourceType, register: u32) -> (r:
        ShaderResourceDeclaration)
        ensures
            r.name@ == name@,
            r.rtype == resourceType,
            r.register == register,
    {
        ShaderResourceDeclaration { name: name.to_owned(), rtype: resourceType, register }
    }

    /// Copy of this declaration, equal to the original.
    pub fn Duplicate(&self) -> (r: ShaderResourceDeclaration)
        ensures
            r == *self,
    {
        ShaderResourceDeclaration {
            name: self.name.clone(),
            rtype: self.rtype,
            register: self.register,
        }
    }

    pub fn GetName(&self) -> (r: &String)
        ensures
            r == &self.name,
    {
        &self.name
    }

    pub fn GetType(&self) -> (r: ShaderResourceType)
        ensures
            r == self.rtype,
    {
        self.rtype
    }

    pub fn GetRegister(&self) -> (r: u32)
        ensures
            r == self.register,
    {
        self.register
    }
}

/// First declared resource with the given name, in declaration order.
pub open spec fn spec_find_resource(
    rs: Seq<ShaderResourceDeclaration>,
    name: Seq<char>,
) -> Option<ShaderResourceDeclaration>
    decreases rs.len(),
{
    if rs.len() == 0 {
        None
    } else if rs[0].name@ == name {
        Some(rs[0])
    } else {
        spec_find_resource(rs.drop_first(), name)
    }
}

} // verus!
