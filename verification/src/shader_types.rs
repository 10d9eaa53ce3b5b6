//! The closed sets of shader stages, uniform types and resource types that
//! reflection can discover in shading-language source text, together with the
//! token-to-type mappings and the byte size of each uniform type.

use vstd::prelude::*;
use vstd::string::StrSliceExecFns;

verus! {

/// Shader stage that owns a constant buffer, uniform or resource.
#[derive(Clone, Copy, Debug, PartialEq, Eq, Structural)]
pub enum ShaderType {
    Unknown,
    VS,
    PS,
    CS,
}

/// Semantic type of a single uniform inside a constant buffer.
#[derive(Clone, Copy, Debug, PartialEq, Eq, Structural)]
pub enum ShaderUniformType {
    Unknown,
    Float,
    Int,
    Uint,
    Vec2,
    Vec3,
    Vec4,
    Bool,
    Matrix,
    Light,
}

/// Kind of a shader resource declaration (textures and samplers).
#[derive(Clone, Copy, Debug, PartialEq, Eq, Structural)]
pub enum ShaderResourceType {
    Unknown,
    Texture2D,
    TextureCube,
    RWTexture2D,
    RWTexture2DArray,
    Sampler,
}

/// Compares two string slices character by character.
pub fn str_eq(a: &str, b: &str) -> (r: bool)
    ensures
        r <==> a@ == b@,
{
    let a_len = a.unicode_len();
    let b_len = b.unicode_len();
    if a_len != b_len {
        return false;
    }
    let mut i: usize = 0;
    while i < a_len
        invariant
            a_len == a@.len(),
            a_len == b@.len(),
            i <= a_len,
            forall|j: int| 0 <= j < i ==> a@[j] == b@[j],
        decreases a_len - i,
    {
        if a.get_char(i) != b.get_char(i) {
            return false;
        }
        i = i + 1;
    }
    proof {
        assert(a@ =~= b@);
    }
    true
}

/// What `ShaderTypeFromString` returns for a given stage token.
pub open spec fn spec_shader_type_of(s: Seq<char>) -> ShaderType {
    if s == "VS"@ {
        ShaderType::VS
    } else if s == "PS"@ {
        ShaderType::PS
    } else {
        ShaderType::Unknown
    }
}

/// What `ShaderUniformFromHLSLType` returns for a given type token.
pub open spec fn spec_uniform_type_of(s: Seq<char>) -> ShaderUniformType {
    if s == "float"@ {
        ShaderUniformType::Float
    } else if s == "float2"@ {
        ShaderUniformType::Vec2
    } else if s == "float3"@ {
        ShaderUniformType::Vec3
    } else if s == "float4"@ {
        ShaderUniformType::Vec4
    } else if s == "int"@ {
        ShaderUniformType::Int
    } else if s == "uint"@ {
        ShaderUniformType::Uint
    } else if s == "bool"@ {
        ShaderUniformType::Bool
    } else if s == "matrix"@ || s == "float4x4"@ {
        ShaderUniformType::Matrix
    } else if s == "Light"@ {
        ShaderUniformType::Light
    } else {
        ShaderUniformType::Unknown
    }
}

/// What `ShaderResourceFromHLSLResource` returns for a given resource token.
pub open spec fn spec_resource_type_of(s: Seq<char>) -> ShaderResourceType {
    if s == "Texture2D"@ {
        ShaderResourceType::Texture2D
    } else if s == "TextureCube"@ {
        ShaderResourceType::TextureCube
    } else if s == "RWTexture2D"@ {
        ShaderResourceType::RWTexture2D
    } else if s == "RWTexture2DArray"@ {
        ShaderResourceType::RWTexture2DArray
    } else if s == "SamplerState"@ {
        ShaderResourceType::Sampler
    } else {
        ShaderResourceType::Unknown
    }
}

/// Byte size of each uniform type: scalars take four bytes, vectors four per
/// lane, a matrix is sixteen floats, and a light array is `Light` (eighty
/// bytes) times the maximum light count of ten.
pub open spec fn spec_uniform_type_size(t: ShaderUniformType) -> u32 {
    match t {
        ShaderUniformType::Unknown => 0,
        ShaderUniformType::Float => 4,
        ShaderUniformType::Int => 4,
        ShaderUniformType::Uint => 4,
        ShaderUniformType::Vec2 => 8,
        ShaderUniformType::Vec3 => 12,
        ShaderUniformType::Vec4 => 16,
        ShaderUniformType::Bool => 4,
        ShaderUniformType::Matrix => 64,
        ShaderUniformType::Light => 800,
    }
}

impl ShaderType {
    /// Maps a stage token ("VS" or "PS") to the stage it names.
    pub fn ShaderTypeFromString(typeString: &str) -> (r: ShaderType)
        ensures
            r == spec_shader_type_of(typeString@),
    {
        if str_eq(typeString, "VS") {
            ShaderType::VS
        } else if str_eq(typeString, "PS") {
            ShaderType::PS
        } else {
            ShaderType::Unknown
        }
    }
}

impl ShaderUniformType {
    /// Maps a shading-language type token to the uniform type it names;
    /// tokens outside the closed set map to `Unknown`.
    pub fn ShaderUniformFromHLSLType(hlslType: &str) -> (r: ShaderUniformType)
        ensures
            r == spec_uniform_type_of(hlslType@),
    {
        if str_eq(hlslType, "float") {
            ShaderUniformType::Float
        } else if str_eq(hlslType, "float2") {
            ShaderUniformType::Vec2
        } else if str_eq(hlslType, "float3") {
            ShaderUniformType::Vec3
        } else if str_eq(hlslType, "float4") {
            ShaderUniformType::Vec4
        } else if str_eq(hlslType, "int") {
            ShaderUniformType::Int
        } else if str_eq(hlslType, "uint") {
            ShaderUniformType::Uint
        } else if str_eq(hlslType, "bool") {
            ShaderUniformType::Bool
        } else if str_eq(hlslType, "matrix") || str_eq(hlslType, "float4x4") {
            ShaderUniformType::Matrix
        } else if str_eq(hlslType, "Light") {
            ShaderUniformType::Light
        } else {
            ShaderUniformType::Unknown
        }
    }

    /// Byte size of a value of the given uniform type.
    pub fn ShaderTypeSize(uniformType: ShaderUniformType) -> (r: u32)
        ensures
            r == spec_uniform_type_size(uniformType),
    {
        match uniformType {
            ShaderUniformType::Unknown => 0,
            ShaderUniformType::Float => 4,
            ShaderUniformType::Int => 4,
            ShaderUniformType::Uint => 4,
            ShaderUniformType::Vec2 => 8,
            ShaderUniformType::Vec3 => 12,
            ShaderUniformType::Vec4 => 16,
            ShaderUniformType::Bool => 4,
            ShaderUniformType::Matrix => 64,
            ShaderUniformType::Light => 800,
        }
    }
}

impl ShaderResourceType {
    /// Maps a shading-language resource keyword to the resource type it
    /// names; keywords outside the closed set map to `Unknown`.
    pub fn ShaderResourceFromHLSLResource(hlslResource: &str) -> (r: ShaderResourceType)
        ensures
            r == spec_resource_type_of(hlslResource@),
    {
        if str_eq(hlslResource, "Texture2D") {
            ShaderResourceType::Texture2D
        } else if str_eq(hlslResource, "TextureCube") {
            ShaderResourceType::TextureCube
        } else if str_eq(hlslResource, "RWTexture2D") {
            ShaderResourceType::RWTexture2D
        } else if str_eq(hlslResource, "RWTexture2DArray") {
            ShaderResourceType::RWTexture2DArray
        } else if str_eq(hlslResource, "SamplerState") {
            ShaderResourceType::Sampler
        } else {
            ShaderResourceType::Unknown
        }
    }
}

} // verus!
