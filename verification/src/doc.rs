//! The in-memory form of an asset document, as the trusted asset parser hands
//! it over: a flat list of nodes, each with a decomposed local transform and
//! an optional list of geometry primitives, plus the raw pixels of every
//! image the document references. All scalars are IEEE bit patterns, so the
//! loader's treatment of them is verified exactly.

use vstd::prelude::*;

use crate::bits::{QuatBits, Vec2Bits, Vec3Bits, Vec4Bits};

verus! {

/// The raw pixels of one image of the document, with its channel count.
#[derive(Clone, PartialEq, Debug)]
pub struct ImageData {
    pub pixels: Vec<u8>,
    pub width: u32,
    pub height: u32,
    pub channels: u32,
}

/// The mathematical value of an `ImageData`.
#[verifier::ext_equal]
pub struct ImageV {
    pub pixels: Seq<u8>,
    pub width: u32,
    pub height: u32,
    pub channels: u32,
}

impl View for ImageData {
    type V = ImageV;

    open spec fn view(&self) -> ImageV {
        ImageV {
            pixels: self.pixels@,
            width: self.width,
            height: self.height,
            channels: self.channels,
        }
    }
}

/// One geometry primitive of a document mesh. An absent attribute is `None`:
/// the loader decides per attribute whether that is fatal or defaulted.
#[derive(Clone, PartialEq, Debug)]
pub struct DocPrimitive {
    pub positions: Option<Vec<Vec3Bits>>,
    pub normals: Option<Vec<Vec3Bits>>,
    pub tex_coords: Option<Vec<Vec2Bits>>,
    pub colors: Option<Vec<Vec4Bits>>,
    pub indices: Option<Vec<u32>>,
    pub base_color_factor: Vec4Bits,
    pub double_sided: bool,
    /// Index into the document's image list for the base-color slot.
    pub base_color_image: Option<usize>,
    /// Index into the document's image list for the metallic-roughness slot.
    pub metallic_roughness_image: Option<usize>,
}

/// The mathematical value of a `DocPrimitive`.
#[verifier::ext_equal]
pub struct PrimV {
    pub positions: Option<Seq<Vec3Bits>>,
    pub normals: Option<Seq<Vec3Bits>>,
    pub tex_coords: Option<Seq<Vec2Bits>>,
    pub colors: Option<Seq<Vec4Bits>>,
    pub indices: Option<Seq<u32>>,
    pub base_color_factor: Vec4Bits,
    pub double_sided: bool,
    pub base_color_image: Option<usize>,
    pub metallic_roughness_image: Option<usize>,
}

impl View for DocPrimitive {
    type V = PrimV;

    open spec fn view(&self) -> PrimV {
        PrimV {
            positions: match self.positions {
                Some(v) => Some(v@),
                None => None,
            },
            normals: match self.normals {
                Some(v) => Some(v@),
                None => None,
            },
            tex_coords: match self.tex_coords {
                Some(v) => Some(v@),
                None => None,
            },
            colors: match self.colors {
                Some(v) => Some(v@),
                None => None,
            },
            indices: match self.indices {
                Some(v) => Some(v@),
                None => None,
            },
            base_color_factor: self.base_color_factor,
            double_sided: self.double_sided,
            base_color_image: self.base_color_image,
            metallic_roughness_image: self.metallic_roughness_image,
        }
    }
}

/// The values behind a list of document primitives.
pub open spec fn prims_view(s: Seq<DocPrimitive>) -> Seq<PrimV> {
    s.map_values(|p: DocPrimitive| p@)
}

/// The values behind a list of images.
pub open spec fn images_view(s: Seq<ImageData>) -> Seq<ImageV> {
    s.map_values(|i: ImageData| i@)
}

/// One entry of the document's node list, its transform already decomposed
/// into translation, rotation and scale. `mesh` is `None` for a node without
/// drawable content; otherwise it holds the mesh's primitives in order.
#[derive(Clone, PartialEq, Debug)]
pub struct DocNode {
    pub name: Option<String>,
    pub translation: Vec3Bits,
    pub rotation: QuatBits,
    pub scale: Vec3Bits,
    pub mesh: Option<Vec<DocPrimitive>>,
}

/// The mathematical value of a `DocNode`.
#[verifier::ext_equal]
pub struct DocNodeV {
    pub name: Option<Seq<char>>,
    pub translation: Vec3Bits,
    pub rotation: QuatBits,
    pub scale: Vec3Bits,
    pub mesh: Option<Seq<PrimV>>,
}

impl View for DocNode {
    type V = DocNodeV;

    open spec fn view(&self) -> DocNodeV {
        DocNodeV {
            name: match self.name {
                Some(s) => Some(s@),
                None => None,
            },
            translation: self.translation,
            rotation: self.rotation,
            scale: self.scale,
            mesh: match self.mesh {
                Some(prims) => Some(prims_view(prims@)),
                None => None,
            },
        }
    }
}

/// A whole parsed asset document: its node list in document order.
#[derive(Clone, PartialEq, Debug)]
pub struct SceneDoc {
    pub nodes: Vec<DocNode>,
}

/// The values behind a list of document nodes.
pub open spec fn doc_nodes_view(s: Seq<DocNode>) -> Seq<DocNodeV> {
    s.map_values(|n: DocNode| n@)
}

impl View for SceneDoc {
    type V = Seq<DocNodeV>;

    open spec fn view(&self) -> Seq<DocNodeV> {
        doc_nodes_view(self.nodes@)
    }
}

/// What the loader assumes of one primitive: attribute lists, when all three
/// required ones are present, run in parallel; a present color list has a
/// first entry; a referenced image exists. The asset parser guarantees all of
/// it; loading a document outside these bounds is a fault, not an error case.
pub open spec fn prim_wf(p: PrimV, n_images: int) -> bool {
    (p.positions is Some && p.normals is Some && p.tex_coords is Some) ==> {
        &&& p.normals->0.len() == p.positions->0.len()
        &&& p.tex_coords->0.len() == p.positions->0.len()
        &&& (p.colors is Some ==> p.colors->0.len() >= 1)
        &&& (p.base_color_image is Some ==> p.base_color_image->0 < n_images)
        &&& (p.metallic_roughness_image is Some ==> p.metallic_roughness_image->0 < n_images)
    }
}

/// `prim_wf` over every primitive of a node.
pub open spec fn node_wf(n: DocNodeV, n_images: int) -> bool {
    n.mesh is Some ==> forall|i: int|
        0 <= i < n.mesh->0.len() ==> prim_wf(#[trigger] n.mesh->0[i], n_images)
}

/// `node_wf` over every node of a document.
pub open spec fn doc_wf(nodes: Seq<DocNodeV>, n_images: int) -> bool {
    forall|i: int| 0 <= i < nodes.len() ==> node_wf(#[trigger] nodes[i], n_images)
}

} // verus!
