//! Meshes as the renderer draws them: a vertex and an index buffer handle,
//! a submesh list with index ranges, and one material-table index per
//! submesh slot.  Importing geometry from files happens outside this
//! library; a mesh enters it as plain values.

use vstd::prelude::*;
use crate::buffers::{VertexBuffer, IndexBuffer};

verus! {

/// One drawable range of a mesh's index buffer.
pub struct Submesh {
    pub Name: String,
    pub VertexOffset: u32,
    pub VertexCount: u32,
    pub IndexOffset: u32,
    pub IndexCount: u32,
    pub MaterialIndex: u32,
}

impl Submesh {
    /// Copy of this submesh, equal to the original.
    pub fn Duplicate(&self) -> (r: Submesh)
        ensures
            r == *self,
    {
        Submesh {
            Name: self.Name.clone(),
            VertexOffset: self.VertexOffset,
            VertexCount: self.VertexCount,
            IndexOffset: self.IndexOffset,
            IndexCount: self.IndexCount,
            MaterialIndex: self.MaterialIndex,
        }
    }
}

/// A mesh: geometry buffer handles plus submeshes and their material-table
/// indices.
pub struct Mesh {
    pub name: String,
    pub vertex_buffer: VertexBuffer,
    pub index_buffer: IndexBuffer,
    pub submeshes: Vec<Submesh>,
    pub materials: Vec<usize>,
    pub filepath: String,
}

impl Mesh {
    /// Every submesh names a slot of the mesh's material list, and every
    /// listed material is an index into a table of `table_len` materials.
    pub open spec fn wf(self, table_len: int) -> bool {
        &&& forall|i: int|
            0 <= i < self.submeshes@.len() ==> (#[trigger] self.submeshes@[i]).MaterialIndex
                < self.materials@.len()
        &&& forall|i: int| 0 <= i < self.materials@.len() ==> (#[trigger] self.materials@[i]) < table_len
    }

    /// Builds a mesh from imported geometry handles.
    pub fn Create(
        name: &str,
        vertex_buffer: VertexBuffer,
        index_buffer: IndexBuffer,
        submeshes: Vec<Submesh>,
        materials: Vec<usize>,
    ) -> (r: Mesh)
        ensures
            r.name@ == name@,
            r.vertex_buffer == vertex_buffer,
            r.index_buffer == index_buffer,
            r.submeshes@ == submeshes@,
            r.materials@ == materials@,
            r.filepath@ == Seq::<char>::empty(),
    {
        Mesh {
            name: name.to_owned(),
            vertex_buffer,
            index_buffer,
            submeshes,
            materials,
            filepath: String::new(),
        }
    }

    pub fn GetName(&self) -> (r: &String)
        ensures
            r == &self.name,
    {
        &self.name
    }

    pub fn GetVertexBuffer(&self) -> (r: &VertexBuffer)
        ensures
            r == &self.vertex_buffer,
    {
        &self.vertex_buffer
    }

    pub fn GetIndexBuffer(&self) -> (r: &IndexBuffer)
        ensures
            r == &self.index_buffer,
    {
        &self.index_buffer
    }

    pub fn GetSubmeshes(&self) -> (r: &Vec<Submesh>)
        ensures
            r == &self.submeshes,
    {
        &self.submeshes
    }

    pub fn GetMaterials(&self) -> (r: &Vec<usize>)
        ensures
            r == &self.materials,
    {
        &self.materials
    }

    pub fn GetFilepath(&self) -> (r: &String)
        ensures
            r == &self.filepath,
    {
        &self.filepath
    }
}

} // verus!
