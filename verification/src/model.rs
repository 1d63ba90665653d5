//! The scene orchestrator: loading an asset document into an owned node
//! list, and the whole-scene transform mutations. The loader's behaviour is
//! stated once, as a recursive specification over the document's value, and
//! the executable loader is proved to follow it exactly.

use vstd::prelude::*;

use std::rc::Rc;

use crate::bits::{white, white_color, QuatBits, Vec3Bits, Vec4Bits};
use crate::doc::{
    doc_nodes_view, doc_wf, images_view, node_wf, prim_wf, prims_view, DocNode, DocNodeV,
    DocPrimitive, ImageData, ImageV, PrimV, SceneDoc,
};
use crate::error::LoadError;
use crate::math::{
    mat_mul, mat_mul_of, quat_from_axis_degrees, quat_mul, quat_mul_of, rotation_mat_of,
    rotation_matrix, scale_mat, scaled_of, translate_mat, translated_of, vec3_add, vec3_sum_of,
};
use crate::mesh::{meshes_view, Mesh, MeshV, Vertex};
use crate::node::{compose_transform, compose_trs, nodes_view, Node, NodeTransform, NodeV};
use crate::texture::{cache_step, texs_view, TexV, Texture, TextureCache, TextureRole};

verus! {

/// The single color every vertex of a primitive receives: the first entry of
/// the vertex-color channel when one is present, opaque white otherwise.
pub open spec fn color_of(p: PrimV) -> Vec4Bits {
    if p.colors is Some {
        p.colors->0[0]
    } else {
        white()
    }
}

/// The index list of a primitive: its index channel widened to 32 bits, or
/// the empty sequence when the channel is absent.
pub open spec fn indices_of(p: PrimV) -> Seq<u32> {
    if p.indices is Some {
        p.indices->0
    } else {
        Seq::empty()
    }
}

/// The vertex list of a primitive: the attribute lists zipped position by
/// position, every vertex carrying the primitive's single color.
pub open spec fn vertices_of(p: PrimV) -> Seq<Vertex>
    recommends
        p.positions is Some,
        p.normals is Some,
        p.tex_coords is Some,
{
    Seq::new(
        p.positions->0.len(),
        |i: int| Vertex {
            position: p.positions->0[i],
            normal: p.normals->0[i],
            uv: p.tex_coords->0[i],
            color: color_of(p),
        },
    )
}

/// The diffuse textures of a primitive (none or one), resolved through the
/// cache, and the cache afterwards.
pub open spec fn resolve_diffuse(p: PrimV, images: Seq<ImageV>, c: Seq<TexV>) -> Result<
    (Seq<TexV>, Seq<TexV>),
    LoadError,
> {
    match p.base_color_image {
        None => Ok((Seq::empty(), c)),
        Some(idx) => match cache_step(c, idx as int, images[idx as int], TextureRole::Diffuse) {
            Ok(pair) => Ok((seq![pair.0], pair.1)),
            Err(e) => Err(e),
        },
    }
}

/// The specular textures of a primitive (none or one) and the cache
/// afterwards. The specular slot accepts every channel count, so this never
/// fails.
pub open spec fn resolve_specular(p: PrimV, images: Seq<ImageV>, c: Seq<TexV>) -> (
    Seq<TexV>,
    Seq<TexV>,
) {
    match p.metallic_roughness_image {
        None => (Seq::empty(), c),
        Some(idx) => {
            let pair = cache_step(c, idx as int, images[idx as int], TextureRole::Specular)->Ok_0;
            (seq![pair.0], pair.1)
        },
    }
}

/// What loading one primitive yields: its mesh and the cache afterwards, or
/// the first fatal error — a missing position, normal or texture-coordinate
/// channel, or an unsupported base-color format.
pub open spec fn prim_step(p: PrimV, images: Seq<ImageV>, c: Seq<TexV>) -> Result<
    (MeshV, Seq<TexV>),
    LoadError,
> {
    if p.positions is None {
        Err(LoadError::MissingPositions)
    } else if p.normals is None {
        Err(LoadError::MissingNormals)
    } else if p.tex_coords is None {
        Err(LoadError::MissingTexCoords)
    } else {
        match resolve_diffuse(p, images, c) {
            Err(e) => Err(e),
            Ok(dp) => {
                let sp = resolve_specular(p, images, dp.1);
                Ok(
                    (
                        MeshV {
                            vertices: vertices_of(p),
                            indices: indices_of(p),
                            textures: dp.0 + sp.0,
                            base_color: p.base_color_factor,
                            double_sided: p.double_sided,
                        },
                        sp.1,
                    ),
                )
            },
        }
    }
}

/// What loading a primitive list yields, in order, threading the cache.
pub open spec fn prims_step(prims: Seq<PrimV>, images: Seq<ImageV>, c: Seq<TexV>) -> Result<
    (Seq<MeshV>, Seq<TexV>),
    LoadError,
>
    decreases prims.len(),
{
    if prims.len() == 0 {
        Ok((Seq::empty(), c))
    } else {
        match prim_step(prims[0], images, c) {
            Err(e) => Err(e),
            Ok(mc) => match prims_step(prims.drop_first(), images, mc.1) {
                Err(e) => Err(e),
                Ok(rest) => Ok((seq![mc.0] + rest.0, rest.1)),
            },
        }
    }
}

/// The node emitted for a meshed document node: its name (empty when
/// unnamed), its decomposed transform, the baked world matrix, and its
/// meshes.
pub open spec fn node_of(n: DocNodeV, meshes: Seq<MeshV>) -> NodeV {
    NodeV {
        name: if n.name is Some {
            n.name->0
        } else {
            Seq::empty()
        },
        transform: NodeTransform {
            translation: n.translation,
            rotation: n.rotation,
            scale: n.scale,
        },
        transform_matrix: compose_trs(n.translation, n.rotation, n.scale),
        meshes: meshes,
    }
}

/// What loading a node list yields: one emitted node per document node that
/// has a mesh, in document order — a node without a mesh is skipped entirely
/// — threading the cache through every primitive.
pub open spec fn nodes_step(nodes: Seq<DocNodeV>, images: Seq<ImageV>, c: Seq<TexV>) -> Result<
    (Seq<NodeV>, Seq<TexV>),
    LoadError,
>
    decreases nodes.len(),
{
    if nodes.len() == 0 {
        Ok((Seq::empty(), c))
    } else {
        match nodes[0].mesh {
            None => nodes_step(nodes.drop_first(), images, c),
            Some(prims) => match prims_step(prims, images, c) {
                Err(e) => Err(e),
                Ok(mc) => match nodes_step(nodes.drop_first(), images, mc.1) {
                    Err(e) => Err(e),
                    Ok(rest) => Ok((seq![node_of(nodes[0], mc.0)] + rest.0, rest.1)),
                },
            },
        }
    }
}

/// What loading a whole document yields, starting from an empty cache.
pub open spec fn load_result(nodes: Seq<DocNodeV>, images: Seq<ImageV>) -> Result<
    Seq<NodeV>,
    LoadError,
> {
    match nodes_step(nodes, images, Seq::empty()) {
        Ok(p) => Ok(p.0),
        Err(e) => Err(e),
    }
}

/// Loads one primitive: reads the required attribute channels, applies the
/// color and index defaults, resolves up to two textures through the cache,
/// and aggregates the mesh — exactly as `prim_step` says.
fn build_mesh(prim: &DocPrimitive, images: &Vec<ImageData>, cache: &mut TextureCache) -> (r:
    Result<Mesh, LoadError>)
    requires
        prim_wf(prim@, images@.len() as int),
    ensures
        match prim_step(prim@, images_view(images@), old(cache)@) {
            Ok(mc) => r is Ok && r->Ok_0@ == mc.0 && final(cache)@ == mc.1,
            Err(e) => r is Err && r->Err_0 == e,
        },
{
    let ghost imgs = images_view(images@);
    let ghost c0 = cache@;
    let positions = match &prim.positions {
        Some(v) => v,
        None => {
            return Err(LoadError::MissingPositions);
        },
    };
    let normals = match &prim.normals {
        Some(v) => v,
        None => {
            return Err(LoadError::MissingNormals);
        },
    };
    let uvs = match &prim.tex_coords {
        Some(v) => v,
        None => {
            return Err(LoadError::MissingTexCoords);
        },
    };
    let color = match &prim.colors {
        Some(cs) => cs[0],
        None => white_color(),
    };
    assert(color == color_of(prim@));
    let indices: Vec<u32> = match &prim.indices {
        Some(v) => v.clone(),
        None => Vec::new(),
    };
    assert(indices@ =~= indices_of(prim@));
    let count = positions.len();
    let mut vertices: Vec<Vertex> = Vec::new();
    let mut k: usize = 0;
    while k < count
        invariant
            count == positions@.len(),
            prim@.positions is Some,
            prim@.normals is Some,
            prim@.tex_coords is Some,
            positions@ == prim@.positions->0,
            normals@ == prim@.normals->0,
            uvs@ == prim@.tex_coords->0,
            normals@.len() == count,
            uvs@.len() == count,
            0 <= k <= count,
            color == color_of(prim@),
            vertices@ == vertices_of(prim@).take(k as int),
        decreases count - k,
    {
        vertices.push(
            Vertex { position: positions[k], normal: normals[k], uv: uvs[k], color: color },
        );
        k += 1;
        proof {
            assert(vertices@ =~= vertices_of(prim@).take(k as int));
        }
    }
    proof {
        assert(vertices@ =~= vertices_of(prim@));
    }
    let mut tex_handles: Vec<Rc<Texture>> = Vec::new();
    match prim.base_color_image {
        Some(idx) => {
            match cache.get_or_load(idx, &images[idx], TextureRole::Diffuse) {
                Ok(t) => {
                    tex_handles.push(t);
                },
                Err(e) => {
                    return Err(e);
                },
            }
        },
        None => {},
    }
    let ghost dp = resolve_diffuse(prim@, imgs, c0)->Ok_0;
    proof {
        assert(texs_view(tex_handles@) =~= dp.0);
        assert(cache@ == dp.1);
    }
    match prim.metallic_roughness_image {
        Some(idx) => {
            match cache.get_or_load(idx, &images[idx], TextureRole::Specular) {
                Ok(t) => {
                    tex_handles.push(t);
                },
                Err(e) => {
                    proof {
                        assert(false);
                    }
                    return Err(e);
                },
            }
        },
        None => {},
    }
    let ghost sp = resolve_specular(prim@, imgs, dp.1);
    proof {
        assert(texs_view(tex_handles@) =~= dp.0 + sp.0);
        assert(cache@ == sp.1);
    }
    let mesh = Mesh::new(
        vertices,
        indices,
        tex_handles,
        prim.base_color_factor,
        prim.double_sided,
    );
    proof {
        assert(mesh@ =~= prim_step(prim@, imgs, c0)->Ok_0.0);
    }
    Ok(mesh)
}

/// Loads the primitives of one document mesh from position `from` on, in
/// order, exactly as `prims_step` says of the remaining suffix.
fn load_primitives(
    prims: &Vec<DocPrimitive>,
    from: usize,
    images: &Vec<ImageData>,
    cache: &mut TextureCache,
) -> (r: Result<Vec<Mesh>, LoadError>)
    requires
        from <= prims@.len(),
        forall|i: int|
            0 <= i < prims@.len() ==> prim_wf(#[trigger] prims@[i]@, images@.len() as int),
    ensures
        match prims_step(prims_view(prims@).skip(from as int), images_view(images@), old(cache)@) {
            Ok(mc) => r is Ok && meshes_view(r->Ok_0@) == mc.0 && final(cache)@ == mc.1,
            Err(e) => r is Err && r->Err_0 == e,
        },
    decreases prims@.len() - from,
{
    let ghost s = prims_view(prims@).skip(from as int);
    if from == prims.len() {
        proof {
            assert(s =~= Seq::<PrimV>::empty());
            assert(meshes_view(Seq::<Mesh>::empty()) =~= Seq::<MeshV>::empty());
        }
        return Ok(Vec::new());
    }
    proof {
        assert(s[0] == prims@[from as int]@);
        assert(s.drop_first() =~= prims_view(prims@).skip(from as int + 1));
    }
    let mesh = match build_mesh(&prims[from], images, cache) {
        Ok(m) => m,
        Err(e) => {
            return Err(e);
        },
    };
    let rest = match load_primitives(prims, from + 1, images, cache) {
        Ok(v) => v,
        Err(e) => {
            return Err(e);
        },
    };
    let mut out = rest;
    out.insert(0, mesh);
    proof {
        assert(meshes_view(out@) =~= seq![mesh@] + meshes_view(out@.drop_first()));
    }
    Ok(out)
}

/// Loads the document's nodes from position `from` on: skips a node without
/// a mesh, loads the primitives of the others, exactly as `nodes_step` says
/// of the remaining suffix.
fn load_doc_nodes(
    doc_nodes: &Vec<DocNode>,
    from: usize,
    images: &Vec<ImageData>,
    cache: &mut TextureCache,
) -> (r: Result<Vec<Node>, LoadError>)
    requires
        from <= doc_nodes@.len(),
        forall|i: int|
            0 <= i < doc_nodes@.len() ==> node_wf(#[trigger] doc_nodes@[i]@, images@.len() as int),
    ensures
        match nodes_step(
            doc_nodes_view(doc_nodes@).skip(from as int),
            images_view(images@),
            old(cache)@,
        ) {
            Ok(nc) => r is Ok && nodes_view(r->Ok_0@) == nc.0 && final(cache)@ == nc.1,
            Err(e) => r is Err && r->Err_0 == e,
        },
    decreases doc_nodes@.len() - from,
{
    let ghost s = doc_nodes_view(doc_nodes@).skip(from as int);
    if from == doc_nodes.len() {
        proof {
            assert(s =~= Seq::<DocNodeV>::empty());
            assert(nodes_view(Seq::<Node>::empty()) =~= Seq::<NodeV>::empty());
        }
        return Ok(Vec::new());
    }
    proof {
        assert(s[0] == doc_nodes@[from as int]@);
        assert(s.drop_first() =~= doc_nodes_view(doc_nodes@).skip(from as int + 1));
    }
    let dn = &doc_nodes[from];
    match &dn.mesh {
        None => {
            let r = load_doc_nodes(doc_nodes, from + 1, images, cache);
            return r;
        },
        Some(prims) => {
            proof {
                assert(s[0].mesh->0 == prims_view(prims@));
                assert(prims_view(prims@).skip(0) =~= prims_view(prims@));
                assert(node_wf(doc_nodes@[from as int]@, images@.len() as int));
                assert forall|i: int|
                    0 <= i < prims@.len() implies prim_wf(
                    #[trigger] prims@[i]@,
                    images@.len() as int,
                ) by {
                    assert(s[0].mesh->0[i] == prims@[i]@);
                }
            }
            let meshes = match load_primitives(prims, 0, images, cache) {
                Ok(v) => v,
                Err(e) => {
                    return Err(e);
                },
            };
            let matrix = compose_transform(&dn.translation, &dn.rotation, &dn.scale);
            let name: String = match &dn.name {
                Some(s) => s.clone(),
                None => String::new(),
            };
            let rest = match load_doc_nodes(doc_nodes, from + 1, images, cache) {
                Ok(v) => v,
                Err(e) => {
                    return Err(e);
                },
            };
            let node = Node {
                name: name,
                transform: NodeTransform {
                    translation: dn.translation,
                    rotation: dn.rotation,
                    scale: dn.scale,
                },
                transform_matrix: matrix,
                mesh_primitives: meshes,
            };
            proof {
                assert(node@ =~= node_of(s[0], meshes_view(node.mesh_primitives@)));
            }
            let mut out = rest;
            out.insert(0, node);
            proof {
                assert(nodes_view(out@) =~= seq![out@[0]@] + nodes_view(out@.drop_first()));
            }
            return Ok(out);
        },
    }
}

/// The loaded scene: the emitted nodes in document order, which is also the
/// draw order, never re-sorted.
#[derive(Debug)]
pub struct Model {
    pub nodes: Vec<Node>,
}

impl View for Model {
    type V = Seq<NodeV>;

    open spec fn view(&self) -> Seq<NodeV> {
        nodes_view(self.nodes@)
    }
}

/// One node after a whole-scene translation by `d`: the translation vector
/// accumulates into the decomposed transform, and the matrix is multiplied by
/// the translation matrix on the right — two independent composition paths,
/// kept exactly as they are.
pub open spec fn translated_node(n: NodeV, d: Vec3Bits) -> NodeV {
    NodeV {
        transform: NodeTransform {
            translation: vec3_sum_of(n.transform.translation, d),
            ..n.transform
        },
        transform_matrix: translated_of(n.transform_matrix, d),
        ..n
    }
}

/// Every node after a whole-scene translation by `d`.
pub open spec fn translate_model(ns: Seq<NodeV>, d: Vec3Bits) -> Seq<NodeV> {
    ns.map_values(|n: NodeV| translated_node(n, d))
}

/// One node after a whole-scene rotation by the quaternion `q`: `q` is
/// multiplied onto the stored rotation on the left, and the matrix is
/// multiplied by `q`'s rotation matrix on the left.
pub open spec fn rotated_node(n: NodeV, q: QuatBits) -> NodeV {
    NodeV {
        transform: NodeTransform { rotation: quat_mul_of(q, n.transform.rotation), ..n.transform },
        transform_matrix: mat_mul_of(rotation_mat_of(q), n.transform_matrix),
        ..n
    }
}

/// Every node after a whole-scene rotation by `q`.
pub open spec fn rotate_model(ns: Seq<NodeV>, q: QuatBits) -> Seq<NodeV> {
    ns.map_values(|n: NodeV| rotated_node(n, q))
}

/// One node after a whole-scene scaling by `f`: the factor accumulates into
/// the decomposed transform by vector addition, and the matrix is multiplied
/// by the scaling matrix on the right.
pub open spec fn scaled_node(n: NodeV, f: Vec3Bits) -> NodeV {
    NodeV {
        transform: NodeTransform { scale: vec3_sum_of(n.transform.scale, f), ..n.transform },
        transform_matrix: scaled_of(n.transform_matrix, f),
        ..n
    }
}

/// Every node after a whole-scene scaling by `f`.
pub open spec fn scale_model(ns: Seq<NodeV>, f: Vec3Bits) -> Seq<NodeV> {
    ns.map_values(|n: NodeV| scaled_node(n, f))
}

impl Model {
    /// Loads a scene from a parsed document and its image payloads: exactly
    /// one node per document node with a mesh, in document order, textures
    /// shared through a cache keyed by source image index — `load_result`
    /// says the whole of it. Returns the first fatal error instead when a
    /// required vertex channel is absent or a base-color image has an
    /// unsupported channel count.
    pub fn new(doc: &SceneDoc, images: &Vec<ImageData>) -> (r: Result<Model, LoadError>)
        requires
            doc_wf(doc@, images@.len() as int),
        ensures
            match load_result(doc@, images_view(images@)) {
                Ok(ns) => r is Ok && r->Ok_0@ == ns,
                Err(e) => r is Err && r->Err_0 == e,
            },
    {
        let mut cache = TextureCache::new();
        proof {
            assert(doc_nodes_view(doc.nodes@).skip(0) =~= doc@);
            assert forall|i: int|
                0 <= i < doc.nodes@.len() implies node_wf(
                #[trigger] doc.nodes@[i]@,
                images@.len() as int,
            ) by {
                assert(doc@[i] == doc.nodes@[i]@);
            }
        }
        let nodes = match load_doc_nodes(&doc.nodes, 0, images, &mut cache) {
            Ok(v) => v,
            Err(e) => {
                return Err(e);
            },
        };
        Ok(Model { nodes })
    }

    /// Translates every node by `delta`: `translate_model` says how each
    /// node's transform and matrix change; nothing else changes, and the
    /// order is kept.
    pub fn translate(&mut self, delta: Vec3Bits)
        ensures
            final(self)@ == translate_model(old(self)@, delta),
    {
        let n = self.nodes.len();
        let mut i: usize = 0;
        while i < n
            invariant
                n == self.nodes@.len(),
                0 <= i <= n,
                forall|j: int|
                    0 <= j < i ==> (#[trigger] self.nodes@[j])@ == translated_node(
                        old(self).nodes@[j]@,
                        delta,
                    ),
                forall|j: int| i <= j < n ==> (#[trigger] self.nodes@[j]) == old(self).nodes@[j],
            decreases n - i,
        {
            let cur_t = self.nodes[i].transform.translation;
            let cur_m = self.nodes[i].transform_matrix;
            let t = vec3_add(&cur_t, &delta);
            let m = translate_mat(&cur_m, &delta);
            let node = &mut self.nodes[i];
            node.transform.translation = t;
            node.transform_matrix = m;
            proof {
                assert(self.nodes@[i as int]@ =~= translated_node(old(self).nodes@[i as int]@, delta));
            }
            i += 1;
        }
        proof {
            assert(self@ =~= translate_model(old(self)@, delta));
        }
    }

    /// Rotates every node by the same quaternion, built once from `axis` and
    /// `degrees` (a degree count as an IEEE bit pattern). The quaternion's
    /// bits come from platform-dependent trigonometry, so this contract can
    /// only say that some one quaternion was applied to all nodes alike;
    /// `rotate_by` pins what that application does for a known quaternion.
    pub fn rotate(&mut self, axis: Vec3Bits, degrees: u32)
        ensures
            exists|q: QuatBits| final(self)@ == rotate_model(old(self)@, q),
    {
        let q = quat_from_axis_degrees(&axis, degrees);
        self.rotate_by(q);
    }

    /// Rotates every node by the quaternion `q`: `rotate_model` says how
    /// each node's stored rotation and matrix change; nothing else changes,
    /// and the order is kept.
    pub fn rotate_by(&mut self, q: QuatBits)
        ensures
            final(self)@ == rotate_model(old(self)@, q),
    {
        let n = self.nodes.len();
        let mut i: usize = 0;
        while i < n
            invariant
                n == self.nodes@.len(),
                0 <= i <= n,
                forall|j: int|
                    0 <= j < i ==> (#[trigger] self.nodes@[j])@ == rotated_node(
                        old(self).nodes@[j]@,
                        q,
                    ),
                forall|j: int| i <= j < n ==> (#[trigger] self.nodes@[j]) == old(self).nodes@[j],
            decreases n - i,
        {
            let cur_r = self.nodes[i].transform.rotation;
            let cur_m = self.nodes[i].transform_matrix;
            let r = quat_mul(&q, &cur_r);
            let m = mat_mul(&rotation_matrix(&q), &cur_m);
            let node = &mut self.nodes[i];
            node.transform.rotation = r;
            node.transform_matrix = m;
            proof {
                assert(self.nodes@[i as int]@ =~= rotated_node(old(self).nodes@[i as int]@, q));
            }
            i += 1;
        }
        proof {
            assert(self@ =~= rotate_model(old(self)@, q));
        }
    }

    /// Scales every node by `factor`: the factor accumulates into each
    /// node's decomposed scale by vector addition, and each matrix is scaled,
    /// as `scale_model` says.
    pub fn scale(&mut self, factor: Vec3Bits)
        ensures
            final(self)@ == scale_model(old(self)@, factor),
    {
        let n = self.nodes.len();
        let mut i: usize = 0;
        while i < n
            invariant
                n == self.nodes@.len(),
                0 <= i <= n,
                forall|j: int|
                    0 <= j < i ==> (#[trigger] self.nodes@[j])@ == scaled_node(
                        old(self).nodes@[j]@,
                        factor,
                    ),
                forall|j: int| i <= j < n ==> (#[trigger] self.nodes@[j]) == old(self).nodes@[j],
            decreases n - i,
        {
            let cur_s = self.nodes[i].transform.scale;
            let cur_m = self.nodes[i].transform_matrix;
            let s = vec3_add(&cur_s, &factor);
            let m = scale_mat(&cur_m, &factor);
            let node = &mut self.nodes[i];
            node.transform.scale = s;
            node.transform_matrix = m;
            proof {
                assert(self.nodes@[i as int]@ =~= scaled_node(old(self).nodes@[i as int]@, factor));
            }
            i += 1;
        }
        proof {
            assert(self@ =~= scale_model(old(self)@, factor));
        }
    }
}

} // verus!
