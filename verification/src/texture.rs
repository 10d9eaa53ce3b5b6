//! Textures and texture views as descriptor values.  A texture's GPU object
//! lives outside this library and is stood for by a fresh integer handle;
//! the verified logic here is the descriptor derivation: typeless storage
//! formats for depth textures, view formats and view dimensions, cubemap
//! array sizing, and the implicit render-target flag for mip generation.

use vstd::prelude::*;

verus! {

/// Pixel formats the renderer uses.
#[derive(Clone, Copy, Debug, PartialEq, Eq, Structural)]
pub enum TextureFormat {
    R8G8B8A8Unorm,
    B8G8R8A8Unorm,
    R16G16B16A16Float,
    R32G32B32A32Float,
    R16G16Float,
    R32Float,
    D24UnormS8Uint,
    D32Float,
    R24G8Typeless,
    R32Typeless,
    R24UnormX8Typeless,
}

#[derive(Clone, Copy, Debug, PartialEq, Eq, Structural)]
pub enum TextureWrap {
    Wrap,
    Clamp,
    Mirror,
}

#[derive(Clone, Copy, Debug, PartialEq, Eq, Structural)]
pub enum TextureFilter {
    Anisotropic,
    MinMagMipLinear,
}

/// GPU binding capabilities requested for a texture.
#[derive(Clone, Copy, Debug, PartialEq, Eq, Structural)]
pub struct BindFlags {
    pub shader_resource: bool,
    pub render_target: bool,
    pub depth_stencil: bool,
    pub unordered_access: bool,
}

/// A depth-stencil pixel format.
pub open spec fn is_depth_format(f: TextureFormat) -> bool {
    f == TextureFormat::D24UnormS8Uint || f == TextureFormat::D32Float
}

/// Storage format a texture is created with: depth formats are stored
/// typeless so the texture can also be read as a shader resource.
pub open spec fn spec_storage_format(f: TextureFormat) -> TextureFormat {
    match f {
        TextureFormat::D24UnormS8Uint => TextureFormat::R24G8Typeless,
        TextureFormat::D32Float => TextureFormat::R32Typeless,
        _ => f,
    }
}

/// Format a shader-resource or render-target or unordered-access view reads
/// a typeless depth texture with.
pub open spec fn spec_srv_format(storage: TextureFormat) -> TextureFormat {
    match storage {
        TextureFormat::R24G8Typeless => TextureFormat::R24UnormX8Typeless,
        TextureFormat::R32Typeless => TextureFormat::R32Float,
        _ => storage,
    }
}

/// Format a depth-stencil view writes a typeless depth texture with.
pub open spec fn spec_dsv_format(storage: TextureFormat) -> TextureFormat {
    match storage {
        TextureFormat::R24G8Typeless => TextureFormat::D24UnormS8Uint,
        TextureFormat::R32Typeless => TextureFormat::D32Float,
        _ => storage,
    }
}

/// Executable twin of `is_depth_format`.
pub fn is_depth_format_x(f: TextureFormat) -> (r: bool)
    ensures
        r == is_depth_format(f),
{
    matches!(f, TextureFormat::D24UnormS8Uint) || matches!(f, TextureFormat::D32Float)
}

/// Metadata of one loaded image face; the pixels themselves stay with the
/// image loader outside this library.
#[derive(Clone, Copy, Debug, PartialEq, Eq, Structural)]
pub struct ImageDims {
    pub width: u32,
    pub height: u32,
    pub bytes_per_pixel: u32,
    pub is_hdr: bool,
}

/// Requested texture: dimensions, format, bindings, mips and the metadata of
/// any image data to upload (one entry per cubemap face).
pub struct TextureDescription {
    pub name: String,
    pub format: TextureFormat,
    pub width: u32,
    pub height: u32,
    pub mip_count: u32,
    pub bind_flags: BindFlags,
    pub image_dims: Vec<Option<ImageDims>>,
}

#[derive(Clone, Copy, Debug, PartialEq, Eq, Structural)]
pub struct SamplerDescription {
    pub wrap: TextureWrap,
    pub filter: TextureFilter,
}

/// A bound sampler state: wrap and filter modes plus the anisotropy level.
#[derive(Clone, Copy, Debug, PartialEq, Eq, Structural)]
pub struct SamplerInfo {
    pub wrap: TextureWrap,
    pub filter: TextureFilter,
    pub max_anisotropy: u32,
}

/// Allocator of fresh GPU-object handles; stands in for the device that
/// hands out objects.
pub struct ResourceIds {
    pub next: u64,
}

impl ResourceIds {
    pub fn new() -> (r: ResourceIds)
        ensures
            r.next == 1u64,
    {
        ResourceIds { next: 1 }
    }

    /// A handle never handed out before.
    pub fn fresh(&mut self) -> (r: u64)
        requires
            old(self).next < u64::MAX,
        ensures
            r == old(self).next,
            final(self).next == old(self).next + 1,
    {
        let id = self.next;
        self.next = self.next + 1;
        id
    }
}

/// A texture: a handle plus the descriptor state the renderer reads back.
pub struct Texture {
    pub id: u64,
    pub name: String,
    pub width: u32,
    pub height: u32,
    pub storage_format: TextureFormat,
    pub mip_count: u32,
    pub array_size: u32,
    pub bind_flags: BindFlags,
    pub generate_mips: bool,
    pub is_cubemap: bool,
    pub wrap: TextureWrap,
    pub filter: TextureFilter,
    pub max_anisotropy: u32,
}

/// A shader-resource view descriptor.
#[derive(Clone, Copy, Debug, PartialEq, Eq, Structural)]
pub struct SrvDesc {
    pub texture: u64,
    pub format: TextureFormat,
    pub is_cube: bool,
    pub most_detailed_mip: u32,
    pub mip_levels: u32,
}

/// A render-target, depth-stencil or unordered-access view descriptor: one
/// mip of one slice, or of all six cubemap faces.
#[derive(Clone, Copy, Debug, PartialEq, Eq, Structural)]
pub struct SliceViewDesc {
    pub texture: u64,
    pub format: TextureFormat,
    pub is_array: bool,
    pub mip_slice: u32,
    pub first_array_slice: u32,
    pub array_size: u32,
}

/// The dimensions a texture takes: from the first image when image data is
/// supplied, else from the description.
pub open spec fn spec_texture_dims(d: TextureDescription) -> (u32, u32) {
    if d.image_dims@.len() > 0 && d.image_dims@[0] is Some {
        (d.image_dims@[0]->Some_0.width, d.image_dims@[0]->Some_0.height)
    } else {
        (d.width, d.height)
    }
}

/// Anisotropy level a sampler filter calls for.
pub open spec fn spec_max_anisotropy(f: TextureFilter) -> u32 {
    if f == TextureFilter::Anisotropic {
        16
    } else {
        1
    }
}

impl Texture {
    /// Builds a 2D texture: depth formats become typeless storage, image
    /// data overrides the requested dimensions, and a mip chain implies
    /// render-target binding for mip generation.
    pub fn CreateTexture2D(
        description: &TextureDescription,
        samplerDescription: &SamplerDescription,
        ids: &mut ResourceIds,
    ) -> (r: Texture)
        requires
            old(ids).next < u64::MAX,
        ensures
            final(ids).next == old(ids).next + 1,
            r.id == old(ids).next,
            r.name@ == description.name@,
            r.width == spec_texture_dims(*description).0,
            r.height == spec_texture_dims(*description).1,
            r.storage_format == spec_storage_format(description.format),
            r.mip_count == description.mip_count,
            r.array_size == 1,
            !r.is_cubemap,
            r.bind_flags == (BindFlags {
                render_target: description.bind_flags.render_target || description.mip_count > 1,
                ..description.bind_flags
            }),
            r.generate_mips == (description.mip_count > 1),
            r.wrap == samplerDescription.wrap,
            r.filter == samplerDescription.filter,
            r.max_anisotropy == spec_max_anisotropy(samplerDescription.filter),
    {
        let (width, height) = if description.image_dims.len() > 0 && description.image_dims[0]
            .is_some() {
            let dims = description.image_dims[0].unwrap();
            (dims.width, dims.height)
        } else {
            (description.width, description.height)
        };
        let storage_format = match description.format {
            TextureFormat::D24UnormS8Uint => TextureFormat::R24G8Typeless,
            TextureFormat::D32Float => TextureFormat::R32Typeless,
            f => f,
        };
        let mut bind_flags = description.bind_flags;
        let generate_mips = description.mip_count > 1;
        if generate_mips {
            bind_flags.render_target = true;
        }
        Texture {
            id: ids.fresh(),
            name: description.name.clone(),
            width,
            height,
            storage_format,
            mip_count: description.mip_count,
            array_size: 1,
            bind_flags,
            generate_mips,
            is_cubemap: false,
            wrap: samplerDescription.wrap,
            filter: samplerDescription.filter,
            max_anisotropy: if matches!(samplerDescription.filter, TextureFilter::Anisotropic) {
                16
            } else {
                1
            },
        }
    }

    /// Builds a cubemap texture: six slices, always bound as shader resource
    /// and unordered access.
    pub fn CreateTextureCube(
        description: &TextureDescription,
        samplerDescription: &SamplerDescription,
        ids: &mut ResourceIds,
    ) -> (r: Texture)
        requires
            old(ids).next < u64::MAX,
        ensures
            final(ids).next == old(ids).next + 1,
            r.id == old(ids).next,
            r.name@ == description.name@,
            r.width == spec_texture_dims(*description).0,
            r.height == spec_texture_dims(*description).1,
            r.storage_format == spec_storage_format(description.format),
            r.mip_count == description.mip_count,
            r.array_size == 6,
            r.is_cubemap,
            r.bind_flags == (BindFlags {
                shader_resource: true,
                render_target: description.mip_count > 1,
                depth_stencil: false,
                unordered_access: true,
            }),
            r.generate_mips == (description.mip_count > 1),
            r.wrap == samplerDescription.wrap,
            r.filter == samplerDescription.filter,
            r.max_anisotropy == spec_max_anisotropy(samplerDescription.filter),
    {
        let (width, height) = if description.image_dims.len() > 0 && description.image_dims[0]
            .is_some() {
            let dims = description.image_dims[0].unwrap();
            (dims.width, dims.height)
        } else {
            (description.width, description.height)
        };
        let storage_format = match description.format {
            TextureFormat::D24UnormS8Uint => TextureFormat::R24G8Typeless,
            TextureFormat::D32Float => TextureFormat::R32Typeless,
            f => f,
        };
        let generate_mips = description.mip_count > 1;
        Texture {
            id: ids.fresh(),
            name: description.name.clone(),
            width,
            height,
            storage_format,
            mip_count: description.mip_count,
            array_size: 6,
            bind_flags: BindFlags {
                shader_resource: true,
                render_target: generate_mips,
                depth_stencil: false,
                unordered_access: true,
            },
            generate_mips,
            is_cubemap: true,
            wrap: samplerDescription.wrap,
            filter: samplerDescription.filter,
            max_anisotropy: if matches!(samplerDescription.filter, TextureFilter::Anisotropic) {
                16
            } else {
                1
            },
        }
    }

    /// Copy of this texture record, equal to the original and naming the
    /// same GPU object.
    pub fn Duplicate(&self) -> (r: Texture)
        ensures
            r == *self,
    {
        Texture {
            id: self.id,
            name: self.name.clone(),
            width: self.width,
            height: self.height,
            storage_format: self.storage_format,
            mip_count: self.mip_count,
            array_size: self.array_size,
            bind_flags: self.bind_flags,
            generate_mips: self.generate_mips,
            is_cubemap: self.is_cubemap,
            wrap: self.wrap,
            filter: self.filter,
            max_anisotropy: self.max_anisotropy,
        }
    }

    /// The sampler state this texture was created with.
    pub fn SamplerInfo(&self) -> (r: SamplerInfo)
        ensures
            r == (SamplerInfo {
                wrap: self.wrap,
                filter: self.filter,
                max_anisotropy: self.max_anisotropy,
            }),
    {
        SamplerInfo { wrap: self.wrap, filter: self.filter, max_anisotropy: self.max_anisotropy }
    }

    pub fn GetWidth(&self) -> (r: u32)
        ensures
            r == self.width,
    {
        self.width
    }

    pub fn GetHeight(&self) -> (r: u32)
        ensures
            r == self.height,
    {
        self.height
    }

    pub fn GetFormat(&self) -> (r: TextureFormat)
        ensures
            r == self.storage_format,
    {
        self.storage_format
    }

    pub fn GetWrapMode(&self) -> (r: TextureWrap)
        ensures
            r == self.wrap,
    {
        self.wrap
    }

    pub fn GetFilter(&self) -> (r: TextureFilter)
        ensures
            r == self.filter,
    {
        self.filter
    }

    pub fn GetMipCount(&self) -> (r: u32)
        ensures
            r == self.mip_count,
    {
        self.mip_count
    }

    pub fn GetName(&self) -> (r: &String)
        ensures
            r == &self.name,
    {
        &self.name
    }

    pub fn GetId(&self) -> (r: u64)
        ensures
            r == self.id,
    {
        self.id
    }

    /// Shader-resource view over the whole mip chain; typeless depth storage
    /// is read with its color-readable format.
    pub fn CreateSRV(&self) -> (r: SrvDesc)
        requires
            self.bind_flags.shader_resource,
        ensures
            r == (SrvDesc {
                texture: self.id,
                format: spec_srv_format(self.storage_format),
                is_cube: self.is_cubemap,
                most_detailed_mip: 0,
                mip_levels: self.mip_count,
            }),
    {
        let format = match self.storage_format {
            TextureFormat::R24G8Typeless => TextureFormat::R24UnormX8Typeless,
            TextureFormat::R32Typeless => TextureFormat::R32Float,
            f => f,
        };
        SrvDesc {
            texture: self.id,
            format,
            is_cube: self.is_cubemap,
            most_detailed_mip: 0,
            mip_levels: self.mip_count,
        }
    }

    /// Render-target view of one mip: a single slice for `slice >= 0`, all
    /// six faces of a cubemap for `slice == -1`.
    pub fn CreateRTV(&self, slice: i32, mipLevel: u32) -> (r: SliceViewDesc)
        requires
            self.bind_flags.render_target,
            slice < self.array_size as i32,
            mipLevel < self.mip_count,
        ensures
            r == (SliceViewDesc {
                texture: self.id,
                format: spec_srv_format(self.storage_format),
                is_array: self.is_cubemap,
                mip_slice: mipLevel,
                first_array_slice: if self.is_cubemap && slice > -1 {
                    slice as u32
                } else {
                    0
                },
                array_size: if self.is_cubemap && slice > -1 {
                    1
                } else if self.is_cubemap {
                    6
                } else {
                    1
                },
            }),
    {
        let format = match self.storage_format {
            TextureFormat::R24G8Typeless => TextureFormat::R24UnormX8Typeless,
            TextureFormat::R32Typeless => TextureFormat::R32Float,
            f => f,
        };
        if self.is_cubemap {
            if slice > -1 {
                SliceViewDesc {
                    texture: self.id,
                    format,
                    is_array: true,
                    mip_slice: mipLevel,
                    first_array_slice: slice as u32,
                    array_size: 1,
                }
            } else {
                SliceViewDesc {
                    texture: self.id,
                    format,
                    is_array: true,
                    mip_slice: mipLevel,
                    first_array_slice: 0,
                    array_size: 6,
                }
            }
        } else {
            SliceViewDesc {
                texture: self.id,
                format,
                is_array: false,
                mip_slice: mipLevel,
                first_array_slice: 0,
                array_size: 1,
            }
        }
    }

    /// Depth-stencil view of one mip; typeless depth storage is written with
    /// its depth format.
    pub fn CreateDSV(&self, slice: i32, mipLevel: u32) -> (r: SliceViewDesc)
        requires
            self.bind_flags.depth_stencil,
            slice < self.array_size as i32,
            mipLevel < self.mip_count,
        ensures
            r == (SliceViewDesc {
                texture: self.id,
                format: spec_dsv_format(self.storage_format),
                is_array: self.is_cubemap,
                mip_slice: mipLevel,
                first_array_slice: if self.is_cubemap && slice > -1 {
                    slice as u32
                } else {
                    0
                },
                array_size: if self.is_cubemap && slice > -1 {
                    1
                } else if self.is_cubemap {
                    6
                } else {
                    1
                },
            }),
    {
        let format = match self.storage_format {
            TextureFormat::R24G8Typeless => TextureFormat::D24UnormS8Uint,
            TextureFormat::R32Typeless => TextureFormat::D32Float,
            f => f,
        };
        if self.is_cubemap {
            if slice > -1 {
                SliceViewDesc {
                    texture: self.id,
                    format,
                    is_array: true,
                    mip_slice: mipLevel,
                    first_array_slice: slice as u32,
                    array_size: 1,
                }
            } else {
                SliceViewDesc {
                    texture: self.id,
                    format,
                    is_array: true,
                    mip_slice: mipLevel,
                    first_array_slice: 0,
                    array_size: 6,
                }
            }
        } else {
            SliceViewDesc {
                texture: self.id,
                format,
                is_array: false,
                mip_slice: mipLevel,
                first_array_slice: 0,
                array_size: 1,
            }
        }
    }

    /// Unordered-access view of one mip, with the same slice selection as a
    /// render-target view.
    pub fn CreateUAV(&self, slice: i32, mipLevel: u32) -> (r: SliceViewDesc)
        requires
            self.bind_flags.unordered_access,
            slice < self.array_size as i32,
            mipLevel < self.mip_count,
        ensures
            r == (SliceViewDesc {
                texture: self.id,
                format: spec_srv_format(self.storage_format),
                is_array: self.is_cubemap,
                mip_slice: mipLevel,
                first_array_slice: if self.is_cubemap && slice > -1 {
                    slice as u32
                } else {
                    0
                },
                array_size: if self.is_cubemap && slice > -1 {
                    1
                } else if self.is_cubemap {
                    6
                } else {
                    1
                },
            }),
    {
        let format = match self.storage_format {
            TextureFormat::R24G8Typeless => TextureFormat::R24UnormX8Typeless,
            TextureFormat::R32Typeless => TextureFormat::R32Float,
            f => f,
        };
        if self.is_cubemap {
            if slice > -1 {
                SliceViewDesc {
                    texture: self.id,
                    format,
                    is_array: true,
                    mip_slice: mipLevel,
                    first_array_slice: slice as u32,
                    array_size: 1,
                }
            } else {
                SliceViewDesc {
                    texture: self.id,
                    format,
                    is_array: true,
                    mip_slice: mipLevel,
                    first_array_slice: 0,
                    array_size: 6,
                }
            }
        } else {
            SliceViewDesc {
                texture: self.id,
                format,
                is_array: false,
                mip_slice: mipLevel,
                first_array_slice: 0,
                array_size: 1,
            }
        }
    }
}

} // verus!
