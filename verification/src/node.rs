//! One entry of the flattened scene: its decomposed local transform, the
//! world matrix baked from it once at load time, and its drawable primitives.

use vstd::prelude::*;

use crate::bits::{Mat4Bits, QuatBits, Vec3Bits};
use crate::math::{
    mat_mul, mat_mul_of, rotation_mat_of, rotation_matrix, scaling_mat_of, scaling_matrix,
    translation_mat_of, translation_matrix,
};
use crate::mesh::{meshes_view, Mesh, MeshV};

verus! {

/// A decomposed local transform, kept beside the baked matrix because the
/// mutation operations update the two representations independently.
#[derive(Clone, Copy, PartialEq, Eq, Structural, Debug)]
pub struct NodeTransform {
    pub translation: Vec3Bits,
    pub rotation: QuatBits,
    pub scale: Vec3Bits,
}

/// One scene node: name, decomposed transform, baked world matrix, and the
/// meshes of its document mesh, in document order.
#[derive(Debug)]
pub struct Node {
    pub name: String,
    pub transform: NodeTransform,
    pub transform_matrix: Mat4Bits,
    pub mesh_primitives: Vec<Mesh>,
}

/// The mathematical value of a `Node`.
#[verifier::ext_equal]
pub struct NodeV {
    pub name: Seq<char>,
    pub transform: NodeTransform,
    pub transform_matrix: Mat4Bits,
    pub meshes: Seq<MeshV>,
}

impl View for Node {
    type V = NodeV;

    open spec fn view(&self) -> NodeV {
        NodeV {
            name: self.name@,
            transform: self.transform,
            transform_matrix: self.transform_matrix,
            meshes: meshes_view(self.mesh_primitives@),
        }
    }
}

/// The values behind a list of nodes.
pub open spec fn nodes_view(s: Seq<Node>) -> Seq<NodeV> {
    s.map_values(|n: Node| n@)
}

/// The world matrix a node is given at load time: the translation matrix
/// times the rotation matrix times the scaling matrix, in that order, so the
/// scale applies first and the translation last.
pub open spec fn compose_trs(t: Vec3Bits, r: QuatBits, s: Vec3Bits) -> Mat4Bits {
    mat_mul_of(mat_mul_of(translation_mat_of(t), rotation_mat_of(r)), scaling_mat_of(s))
}

/// Bakes the world matrix of a decomposed transform, exactly `compose_trs`.
pub fn compose_transform(t: &Vec3Bits, r: &QuatBits, s: &Vec3Bits) -> (m: Mat4Bits)
    ensures
        m == compose_trs(*t, *r, *s),
{
    let translation = translation_matrix(t);
    let rotation = rotation_matrix(r);
    let scaling = scaling_matrix(s);
    mat_mul(&mat_mul(&translation, &rotation), &scaling)
}

} // verus!
