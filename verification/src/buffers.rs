//! Vertex and index buffers as handle-plus-descriptor records; the GPU
//! buffer and its contents live outside this library, which keeps only the
//! capacity and layout facts that uploads and draws are checked against.

use vstd::prelude::*;
use crate::texture::ResourceIds;

verus! {

#[derive(Clone, Copy, Debug, PartialEq, Eq, Structural)]
pub enum BufferUsage {
    Default,
    Dynamic,
}

#[derive(Clone, Copy, Debug, PartialEq, Eq, Structural)]
pub enum IndexFormat {
    R16Uint,
    R32Uint,
}

#[derive(Clone, Copy, Debug, PartialEq, Eq, Structural)]
pub struct VertexBufferDescription {
    pub VertexCount: u32,
    pub Stride: u32,
    pub Size: u32,
    pub Usage: BufferUsage,
}

#[derive(Clone, Copy, Debug, PartialEq, Eq, Structural)]
pub struct IndexBufferDescription {
    pub IndexCount: u32,
    pub Size: u32,
    pub Format: IndexFormat,
    pub Usage: BufferUsage,
}

/// A vertex buffer handle with its creation-time layout.
#[derive(Clone, Copy, Debug, PartialEq, Eq, Structural)]
pub struct VertexBuffer {
    pub id: u64,
    pub vertex_count: u32,
    pub stride: u32,
    pub size: u32,
    pub usage: BufferUsage,
}

impl VertexBuffer {
    pub fn Create(description: &VertexBufferDescription, ids: &mut ResourceIds) -> (r:
        VertexBuffer)
        requires
            old(ids).next < u64::MAX,
        ensures
            final(ids).next == old(ids).next + 1,
            r.id == old(ids).next,
            r.vertex_count == description.VertexCount,
            r.stride == description.Stride,
            r.size == description.Size,
            r.usage == description.Usage,
    {
        VertexBuffer {
            id: ids.fresh(),
            vertex_count: description.VertexCount,
            stride: description.Stride,
            size: description.Size,
            usage: description.Usage,
        }
    }

    pub fn GetStride(&self) -> (r: u32)
        ensures
            r == self.stride,
    {
        self.stride
    }

    pub fn GetSize(&self) -> (r: u32)
        ensures
            r == self.size,
    {
        self.size
    }

    pub fn GetVertexCount(&self) -> (r: u32)
        ensures
            r == self.vertex_count,
    {
        self.vertex_count
    }
}

/// An index buffer handle with its creation-time layout.
#[derive(Clone, Copy, Debug, PartialEq, Eq, Structural)]
pub struct IndexBuffer {
    pub id: u64,
    pub index_count: u32,
    pub size: u32,
    pub format: IndexFormat,
    pub usage: BufferUsage,
}

impl IndexBuffer {
    pub fn Create(description: &IndexBufferDescription, ids: &mut ResourceIds) -> (r: IndexBuffer)
        requires
            old(ids).next < u64::MAX,
        ensures
            final(ids).next == old(ids).next + 1,
            r.id == old(ids).next,
            r.index_count == description.IndexCount,
            r.size == description.Size,
            r.format == description.Format,
            r.usage == description.Usage,
    {
        IndexBuffer {
            id: ids.fresh(),
            index_count: description.IndexCount,
            size: description.Size,
            format: description.Format,
            usage: description.Usage,
        }
    }

    pub fn GetSize(&self) -> (r: u32)
        ensures
            r == self.size,
    {
        self.size
    }

    pub fn GetIndexCount(&self) -> (r: u32)
        ensures
            r == self.index_count,
    {
        self.index_count
    }

    pub fn GetFormat(&self) -> (r: IndexFormat)
        ensures
            r == self.format,
    {
        self.format
    }
}

} // verus!
