//! One drawable primitive: flat vertex data, triangle indices, shared
//! texture handles and material scalars, aggregated once at load time.

use vstd::prelude::*;

use std::rc::Rc;

use crate::bits::{Vec2Bits, Vec3Bits, Vec4Bits};
use crate::texture::{texs_view, TexV, Texture};

verus! {

/// One vertex: position, normal, texture coordinates and color, all IEEE bit
/// patterns.
#[derive(Clone, Copy, PartialEq, Eq, Structural, Debug)]
pub struct Vertex {
    pub position: Vec3Bits,
    pub normal: Vec3Bits,
    pub uv: Vec2Bits,
    pub color: Vec4Bits,
}

/// One drawable primitive. An empty index list means a non-indexed draw.
/// `textures` holds up to two shared handles, diffuse then specular, in
/// insertion order.
#[derive(Debug)]
pub struct Mesh {
    pub vertices: Vec<Vertex>,
    pub indices: Vec<u32>,
    pub textures: Vec<Rc<Texture>>,
    pub base_color: Vec4Bits,
    pub double_sided: bool,
}

/// The mathematical value of a `Mesh`.
#[verifier::ext_equal]
pub struct MeshV {
    pub vertices: Seq<Vertex>,
    pub indices: Seq<u32>,
    pub textures: Seq<TexV>,
    pub base_color: Vec4Bits,
    pub double_sided: bool,
}

/// The values behind a list of meshes.
pub open spec fn meshes_view(s: Seq<Mesh>) -> Seq<MeshV> {
    s.map_values(|m: Mesh| m@)
}

impl View for Mesh {
    type V = MeshV;

    open spec fn view(&self) -> MeshV {
        MeshV {
            vertices: self.vertices@,
            indices: self.indices@,
            textures: texs_view(self.textures@),
            base_color: self.base_color,
            double_sided: self.double_sided,
        }
    }
}

impl Mesh {
    /// Pure aggregation: the mesh owns exactly what it is handed, unchanged.
    pub fn new(
        vertices: Vec<Vertex>,
        indices: Vec<u32>,
        textures: Vec<Rc<Texture>>,
        base_color: Vec4Bits,
        double_sided: bool,
    ) -> (m: Mesh)
        ensures
            m@.vertices == vertices@,
            m@.indices == indices@,
            m@.textures == texs_view(textures@),
            m@.base_color == base_color,
            m@.double_sided == double_sided,
    {
        Mesh { vertices, indices, textures, base_color, double_sided }
    }
}

} // verus!
