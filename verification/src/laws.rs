//! The load-time guarantees, proved once and for all over the loader's
//! specification: node emission count, texture sharing and single creation,
//! the color and index defaults, and the accumulation of translations.

use vstd::prelude::*;

use crate::bits::{white, Vec3Bits};
use crate::doc::{DocNodeV, ImageV, PrimV};
use crate::error::LoadError;
use crate::math::{translated_of, vec3_sum_of};
use crate::mesh::MeshV;
use crate::model::{
    load_result, node_of, nodes_step, prim_step, prims_step, resolve_diffuse, resolve_specular,
    translate_model, translated_node,
};
use crate::node::{NodeTransform, NodeV};
use crate::texture::{cache_find, cache_step, diffuse_format_of, made_tex, TexV, TextureRole};

verus! {

/// How many document nodes carry a mesh: exactly the nodes the loader emits.
pub open spec fn meshed_count(nodes: Seq<DocNodeV>) -> int
    decreases nodes.len(),
{
    if nodes.len() == 0 {
        0
    } else {
        (if nodes[0].mesh is Some {
            1int
        } else {
            0int
        }) + meshed_count(nodes.drop_first())
    }
}

proof fn lemma_nodes_step_count(nodes: Seq<DocNodeV>, images: Seq<ImageV>, c: Seq<TexV>)
    requires
        nodes_step(nodes, images, c) is Ok,
    ensures
        nodes_step(nodes, images, c)->Ok_0.0.len() == meshed_count(nodes),
    decreases nodes.len(),
{
    if nodes.len() > 0 {
        match nodes[0].mesh {
            None => {
                lemma_nodes_step_count(nodes.drop_first(), images, c);
            },
            Some(prims) => {
                let mc = prims_step(prims, images, c)->Ok_0;
                lemma_nodes_step_count(nodes.drop_first(), images, mc.1);
            },
        }
    }
}

/// The loader emits exactly one node per document node that has a mesh: a
/// node without one is absent from the result, never present empty.
pub proof fn lemma_node_count(nodes: Seq<DocNodeV>, images: Seq<ImageV>)
    requires
        load_result(nodes, images) is Ok,
    ensures
        load_result(nodes, images)->Ok_0.len() == meshed_count(nodes),
{
    lemma_nodes_step_count(nodes, images, Seq::empty());
}

/// No two cache entries share a source image index: each image is loaded at
/// most once.
pub open spec fn keys_unique(c: Seq<TexV>) -> bool {
    forall|i: int, j: int|
        #![trigger c[i], c[j]]
        0 <= i < j < c.len() ==> c[i].image_index != c[j].image_index
}

/// Whether texture value `t` occurs anywhere in the loaded scene.
pub open spec fn scene_has_tex(ns: Seq<NodeV>, t: TexV) -> bool {
    exists|i: int, j: int, k: int|
        #![trigger ns[i].meshes[j].textures[k]]
        0 <= i < ns.len() && 0 <= j < ns[i].meshes.len() && 0 <= k
            < ns[i].meshes[j].textures.len() && ns[i].meshes[j].textures[k] == t
}

/// Every texture of a mesh is the cache's entry for its own image index.
pub open spec fn mesh_texs_found(m: MeshV, c: Seq<TexV>) -> bool {
    forall|k: int|
        0 <= k < m.textures.len() ==> cache_find(
            c,
            (#[trigger] m.textures[k]).image_index,
        ) == Some(m.textures[k])
}

proof fn lemma_prefix_index(a: Seq<TexV>, b: Seq<TexV>)
    requires
        a.is_prefix_of(b),
    ensures
        forall|i: int| 0 <= i < a.len() ==> a[i] == b[i],
{
    assert forall|i: int| 0 <= i < a.len() implies a[i] == b[i] by {
        assert(a[i] == b.subrange(0, a.len() as int)[i]);
    }
}

proof fn lemma_prefix_trans(a: Seq<TexV>, b: Seq<TexV>, c: Seq<TexV>)
    requires
        a.is_prefix_of(b),
        b.is_prefix_of(c),
    ensures
        a.is_prefix_of(c),
{
    lemma_prefix_index(a, b);
    lemma_prefix_index(b, c);
    assert(a =~= c.subrange(0, a.len() as int));
}

proof fn lemma_find_some_index(c: Seq<TexV>, idx: int)
    requires
        cache_find(c, idx) is Some,
    ensures
        cache_find(c, idx)->0.image_index == idx,
    decreases c.len(),
{
    if c.len() > 0 && c[0].image_index != idx {
        lemma_find_some_index(c.drop_first(), idx);
    }
}

proof fn lemma_find_none_all_differ(c: Seq<TexV>, idx: int)
    requires
        cache_find(c, idx) is None,
    ensures
        forall|k: int| 0 <= k < c.len() ==> (#[trigger] c[k]).image_index != idx,
    decreases c.len(),
{
    if c.len() > 0 {
        lemma_find_none_all_differ(c.drop_first(), idx);
        assert forall|k: int| 0 <= k < c.len() implies (#[trigger] c[k]).image_index != idx by {
            if k > 0 {
                assert(c.drop_first()[k - 1] == c[k]);
            }
        }
    }
}

proof fn lemma_find_prefix_stable(c1: Seq<TexV>, c2: Seq<TexV>, idx: int)
    requires
        c1.is_prefix_of(c2),
        cache_find(c1, idx) is Some,
    ensures
        cache_find(c2, idx) == cache_find(c1, idx),
    decreases c1.len(),
{
    lemma_prefix_index(c1, c2);
    assert(c1.len() > 0);
    assert(c2[0] == c1[0]);
    if c1[0].image_index != idx {
        assert(c1.drop_first() =~= c2.drop_first().subrange(0, c1.len() - 1));
        lemma_find_prefix_stable(c1.drop_first(), c2.drop_first(), idx);
    }
}

proof fn lemma_find_after_push(c: Seq<TexV>, t: TexV)
    requires
        cache_find(c, t.image_index) is None,
    ensures
        cache_find(c.push(t), t.image_index) == Some(t),
    decreases c.len(),
{
    if c.len() == 0 {
        assert(c.push(t)[0] == t);
    } else {
        lemma_find_after_push(c.drop_first(), t);
        assert(c.push(t).drop_first() =~= c.drop_first().push(t));
    }
}

proof fn lemma_cache_step_props(c: Seq<TexV>, idx: int, img: ImageV, role: TextureRole)
    requires
        cache_step(c, idx, img, role) is Ok,
    ensures
        c.is_prefix_of(cache_step(c, idx, img, role)->Ok_0.1),
        cache_find(
            cache_step(c, idx, img, role)->Ok_0.1,
            cache_step(c, idx, img, role)->Ok_0.0.image_index,
        ) == Some(cache_step(c, idx, img, role)->Ok_0.0),
        keys_unique(c) ==> keys_unique(cache_step(c, idx, img, role)->Ok_0.1),
{
    match cache_find(c, idx) {
        Some(t) => {
            assert(c.is_prefix_of(c)) by {
                assert(c =~= c.subrange(0, c.len() as int));
            }
            lemma_find_some_index(c, idx);
        },
        None => {
            let t = cache_step(c, idx, img, role)->Ok_0.0;
            let c2 = c.push(t);
            assert(c.is_prefix_of(c2)) by {
                assert(c =~= c2.subrange(0, c.len() as int));
            }
            lemma_find_after_push(c, t);
            lemma_find_none_all_differ(c, idx);
            if keys_unique(c) {
                assert forall|i: int, j: int|
                    #![trigger c2[i], c2[j]]
                    0 <= i < j < c2.len() implies c2[i].image_index != c2[j].image_index by {
                    if j < c.len() {
                        assert(c[i] == c2[i] && c[j] == c2[j]);
                    } else {
                        assert(c2[j] == t && c2[i] == c[i]);
                    }
                }
            }
        },
    }
}

proof fn lemma_prim_step_props(p: PrimV, images: Seq<ImageV>, c: Seq<TexV>)
    requires
        prim_step(p, images, c) is Ok,
    ensures
        c.is_prefix_of(prim_step(p, images, c)->Ok_0.1),
        mesh_texs_found(prim_step(p, images, c)->Ok_0.0, prim_step(p, images, c)->Ok_0.1),
        keys_unique(c) ==> keys_unique(prim_step(p, images, c)->Ok_0.1),
{
    let dp = resolve_diffuse(p, images, c)->Ok_0;
    let sp = resolve_specular(p, images, dp.1);
    match p.base_color_image {
        None => {
            assert(c.is_prefix_of(c)) by {
                assert(c =~= c.subrange(0, c.len() as int));
            }
        },
        Some(idx) => {
            lemma_cache_step_props(c, idx as int, images[idx as int], TextureRole::Diffuse);
        },
    }
    match p.metallic_roughness_image {
        None => {
            assert(dp.1.is_prefix_of(dp.1)) by {
                assert(dp.1 =~= dp.1.subrange(0, dp.1.len() as int));
            }
        },
        Some(idx) => {
            lemma_cache_step_props(
                dp.1,
                idx as int,
                images[idx as int],
                TextureRole::Specular,
            );
        },
    }
    lemma_prefix_trans(c, dp.1, sp.1);
    let m = prim_step(p, images, c)->Ok_0.0;
    assert forall|k: int|
        0 <= k < m.textures.len() implies cache_find(
        sp.1,
        (#[trigger] m.textures[k]).image_index,
    ) == Some(m.textures[k]) by {
        if k < dp.0.len() {
            assert(m.textures[k] == dp.0[0]);
            lemma_find_prefix_stable(dp.1, sp.1, dp.0[0].image_index);
        } else {
            assert(m.textures[k] == sp.0[0]);
        }
    }
}

proof fn lemma_prims_step_props(prims: Seq<PrimV>, images: Seq<ImageV>, c: Seq<TexV>)
    requires
        prims_step(prims, images, c) is Ok,
    ensures
        c.is_prefix_of(prims_step(prims, images, c)->Ok_0.1),
        forall|j: int|
            0 <= j < prims_step(prims, images, c)->Ok_0.0.len() ==> mesh_texs_found(
                #[trigger] prims_step(prims, images, c)->Ok_0.0[j],
                prims_step(prims, images, c)->Ok_0.1,
            ),
        keys_unique(c) ==> keys_unique(prims_step(prims, images, c)->Ok_0.1),
    decreases prims.len(),
{
    if prims.len() == 0 {
        assert(c.is_prefix_of(c)) by {
            assert(c =~= c.subrange(0, c.len() as int));
        }
    } else {
        let mc = prim_step(prims[0], images, c)->Ok_0;
        let rest = prims_step(prims.drop_first(), images, mc.1)->Ok_0;
        lemma_prim_step_props(prims[0], images, c);
        lemma_prims_step_props(prims.drop_first(), images, mc.1);
        lemma_prefix_trans(c, mc.1, rest.1);
        let out = prims_step(prims, images, c)->Ok_0;
        assert forall|j: int|
            0 <= j < out.0.len() implies mesh_texs_found(#[trigger] out.0[j], out.1) by {
            if j == 0 {
                assert(out.0[0] == mc.0);
                assert forall|k: int|
                    0 <= k < mc.0.textures.len() implies cache_find(
                    out.1,
                    (#[trigger] mc.0.textures[k]).image_index,
                ) == Some(mc.0.textures[k]) by {
                    lemma_find_prefix_stable(mc.1, rest.1, mc.0.textures[k].image_index);
                }
            } else {
                assert(out.0[j] == rest.0[j - 1]);
            }
        }
    }
}

proof fn lemma_nodes_step_props(nodes: Seq<DocNodeV>, images: Seq<ImageV>, c: Seq<TexV>)
    requires
        nodes_step(nodes, images, c) is Ok,
    ensures
        c.is_prefix_of(nodes_step(nodes, images, c)->Ok_0.1),
        forall|t: TexV|
            scene_has_tex(#[trigger] nodes_step(nodes, images, c)->Ok_0.0, t) ==> cache_find(
                nodes_step(nodes, images, c)->Ok_0.1,
                t.image_index,
            ) == Some(t),
        keys_unique(c) ==> keys_unique(nodes_step(nodes, images, c)->Ok_0.1),
    decreases nodes.len(),
{
    if nodes.len() == 0 {
        assert(c.is_prefix_of(c)) by {
            assert(c =~= c.subrange(0, c.len() as int));
        }
    } else {
        let out = nodes_step(nodes, images, c)->Ok_0;
        match nodes[0].mesh {
            None => {
                lemma_nodes_step_props(nodes.drop_first(), images, c);
            },
            Some(prims) => {
                let mc = prims_step(prims, images, c)->Ok_0;
                let rest = nodes_step(nodes.drop_first(), images, mc.1)->Ok_0;
                lemma_prims_step_props(prims, images, c);
                lemma_nodes_step_props(nodes.drop_first(), images, mc.1);
                lemma_prefix_trans(c, mc.1, rest.1);
                assert forall|t: TexV| scene_has_tex(out.0, t) implies cache_find(
                    out.1,
                    t.image_index,
                ) == Some(t) by {
                    let (i, j, k) = choose|i: int, j: int, k: int|
                        #![trigger out.0[i].meshes[j].textures[k]]
                        0 <= i < out.0.len() && 0 <= j < out.0[i].meshes.len() && 0 <= k
                            < out.0[i].meshes[j].textures.len() && out.0[i].meshes[j].textures[k]
                            == t;
                    if i == 0 {
                        assert(out.0[0].meshes == mc.0);
                        assert(mesh_texs_found(mc.0[j], mc.1));
                        assert(cache_find(mc.1, t.image_index) == Some(t));
                        lemma_find_prefix_stable(mc.1, rest.1, t.image_index);
                    } else {
                        assert(out.0[i] == rest.0[i - 1]);
                        assert(scene_has_tex(rest.0, t)) by {
                            assert(rest.0[i - 1].meshes[j].textures[k] == t);
                        }
                    }
                }
            },
        }
    }
}

/// Two textures anywhere in a loaded scene that stem from the same source
/// image index are the same texture: the cache hands every primitive the one
/// instance it created for that index.
pub proof fn lemma_texture_shared(
    nodes: Seq<DocNodeV>,
    images: Seq<ImageV>,
    t1: TexV,
    t2: TexV,
)
    requires
        load_result(nodes, images) is Ok,
        scene_has_tex(load_result(nodes, images)->Ok_0, t1),
        scene_has_tex(load_result(nodes, images)->Ok_0, t2),
        t1.image_index == t2.image_index,
    ensures
        t1 == t2,
{
    lemma_nodes_step_props(nodes, images, Seq::empty());
}

/// The cache a successful load ends with never holds two entries for one
/// image index: each source image is loaded exactly once.
pub proof fn lemma_texture_created_once(nodes: Seq<DocNodeV>, images: Seq<ImageV>)
    requires
        nodes_step(nodes, images, Seq::empty()) is Ok,
    ensures
        keys_unique(nodes_step(nodes, images, Seq::<TexV>::empty())->Ok_0.1),
{
    lemma_nodes_step_props(nodes, images, Seq::empty());
}

/// A primitive without a vertex-color channel yields a mesh whose every
/// vertex carries exactly opaque white.
pub proof fn lemma_missing_colors_white(
    p: PrimV,
    images: Seq<ImageV>,
    c: Seq<TexV>,
)
    requires
        p.colors is None,
        prim_step(p, images, c) is Ok,
    ensures
        forall|k: int|
            0 <= k < prim_step(p, images, c)->Ok_0.0.vertices.len() ==> (#[trigger] prim_step(
                p,
                images,
                c,
            )->Ok_0.0.vertices[k]).color == white(),
{
}

/// A primitive without an index channel yields a mesh with an empty index
/// sequence, so an indexed draw over it covers nothing.
pub proof fn lemma_missing_indices_empty(
    p: PrimV,
    images: Seq<ImageV>,
    c: Seq<TexV>,
)
    requires
        p.indices is None,
        prim_step(p, images, c) is Ok,
    ensures
        prim_step(p, images, c)->Ok_0.0.indices == Seq::<u32>::empty(),
{
}

/// Every vertex of a mesh carries exactly opaque white.
pub open spec fn all_vertices_white(m: MeshV) -> bool {
    forall|k: int| 0 <= k < m.vertices.len() ==> (#[trigger] m.vertices[k]).color == white()
}

/// Loading a document of two nodes — one without a mesh, one with a single
/// primitive that has the three required channels, no vertex colors, and a
/// base-color texture referencing image index zero — yields exactly one
/// node with exactly one mesh, every vertex colored opaque white, carrying
/// exactly one texture, diffuse, for image zero; and the cache holds exactly
/// one entry, so the image was loaded once. Needs the image's channel count
/// to be a supported base-color count: with any other count the load fails
/// instead.
pub proof fn lemma_meshless_then_textured_scene(
    n0: DocNodeV,
    n1: DocNodeV,
    p: PrimV,
    images: Seq<ImageV>,
)
    requires
        n0.mesh is None,
        n1.mesh == Some(seq![p]),
        p.positions is Some,
        p.normals is Some,
        p.tex_coords is Some,
        p.colors is None,
        p.base_color_image == Some(0usize),
        p.metallic_roughness_image is None,
        images.len() >= 1,
        diffuse_format_of(images[0].channels) is Some,
    ensures
        load_result(seq![n0, n1], images) is Ok,
        load_result(seq![n0, n1], images)->Ok_0.len() == 1,
        load_result(seq![n0, n1], images)->Ok_0[0].meshes.len() == 1,
        load_result(seq![n0, n1], images)->Ok_0[0].meshes[0].textures.len() == 1,
        load_result(seq![n0, n1], images)->Ok_0[0].meshes[0].textures[0].role
            == TextureRole::Diffuse,
        load_result(seq![n0, n1], images)->Ok_0[0].meshes[0].textures[0].image_index == 0,
        all_vertices_white(load_result(seq![n0, n1], images)->Ok_0[0].meshes[0]),
        nodes_step(seq![n0, n1], images, Seq::<TexV>::empty())->Ok_0.1.len() == 1,
{
    let s = seq![n0, n1];
    let c0 = Seq::<TexV>::empty();
    let fmt = diffuse_format_of(images[0].channels)->0;
    let t = made_tex(0, images[0], TextureRole::Diffuse, fmt);
    assert(cache_find(c0, 0) is None);
    assert(cache_step(c0, 0, images[0], TextureRole::Diffuse) == Ok::<(TexV, Seq<TexV>),
        LoadError,
    >((t, c0.push(t))));
    let c1 = c0.push(t);
    assert(resolve_diffuse(p, images, c0) == Ok::<(Seq<TexV>, Seq<TexV>), LoadError>(
        (seq![t], c1),
    ));
    assert(resolve_specular(p, images, c1) == (Seq::<TexV>::empty(), c1));
    assert(prim_step(p, images, c0) is Ok);
    let m = prim_step(p, images, c0)->Ok_0.0;
    assert(m.textures =~= seq![t]);
    let prims = seq![p];
    assert(prims[0] == p);
    assert(prims.drop_first() =~= Seq::<PrimV>::empty());
    assert(prims_step(prims.drop_first(), images, c1) == Ok::<(Seq<MeshV>, Seq<TexV>), LoadError>(
        (Seq::<MeshV>::empty(), c1),
    ));
    assert(prims_step(prims, images, c0) is Ok);
    let msc = prims_step(prims, images, c0)->Ok_0;
    assert(msc.0 =~= seq![m]);
    assert(msc.1 == c1);
    assert(s.drop_first() =~= seq![n1]);
    assert(seq![n1].drop_first() =~= Seq::<DocNodeV>::empty());
    assert(seq![n1][0] == n1);
    assert(seq![n1][0].mesh == Some(prims));
    assert(nodes_step(seq![n1].drop_first(), images, msc.1) == Ok::<(Seq<NodeV>, Seq<TexV>),
        LoadError,
    >((Seq::<NodeV>::empty(), msc.1)));
    assert(nodes_step(seq![n1], images, c0) is Ok);
    let out1 = nodes_step(seq![n1], images, c0)->Ok_0;
    assert(out1.0 =~= seq![node_of(n1, msc.0)]);
    assert(nodes_step(s, images, c0) == nodes_step(s.drop_first(), images, c0));
    assert(load_result(s, images)->Ok_0 == out1.0);
    assert(out1.0[0].meshes[0] == m);
}

/// Loading a document of two nodes whose single primitives both reference
/// base-color image index zero yields two meshes holding the same one
/// texture — the cache hands the second primitive the instance the first
/// created — and the cache ends with exactly one entry: the image was loaded
/// once. Needs a supported base-color channel count, as above.
pub proof fn lemma_shared_image_scene(
    na: DocNodeV,
    nb: DocNodeV,
    pa: PrimV,
    pb: PrimV,
    images: Seq<ImageV>,
)
    requires
        na.mesh == Some(seq![pa]),
        nb.mesh == Some(seq![pb]),
        pa.positions is Some,
        pa.normals is Some,
        pa.tex_coords is Some,
        pb.positions is Some,
        pb.normals is Some,
        pb.tex_coords is Some,
        pa.base_color_image == Some(0usize),
        pb.base_color_image == Some(0usize),
        pa.metallic_roughness_image is None,
        pb.metallic_roughness_image is None,
        images.len() >= 1,
        diffuse_format_of(images[0].channels) is Some,
    ensures
        load_result(seq![na, nb], images) is Ok,
        load_result(seq![na, nb], images)->Ok_0.len() == 2,
        load_result(seq![na, nb], images)->Ok_0[0].meshes[0].textures.len() == 1,
        load_result(seq![na, nb], images)->Ok_0[0].meshes[0].textures == load_result(
            seq![na, nb],
            images,
        )->Ok_0[1].meshes[0].textures,
        nodes_step(seq![na, nb], images, Seq::<TexV>::empty())->Ok_0.1.len() == 1,
{
    let s = seq![na, nb];
    let c0 = Seq::<TexV>::empty();
    let fmt = diffuse_format_of(images[0].channels)->0;
    let t = made_tex(0, images[0], TextureRole::Diffuse, fmt);
    let c1 = c0.push(t);
    assert(cache_find(c0, 0) is None);
    assert(cache_step(c0, 0, images[0], TextureRole::Diffuse) == Ok::<(TexV, Seq<TexV>),
        LoadError,
    >((t, c1)));
    assert(resolve_diffuse(pa, images, c0) == Ok::<(Seq<TexV>, Seq<TexV>), LoadError>(
        (seq![t], c1),
    ));
    assert(resolve_specular(pa, images, c1) == (Seq::<TexV>::empty(), c1));
    assert(prim_step(pa, images, c0) is Ok);
    let ma = prim_step(pa, images, c0)->Ok_0.0;
    assert(ma.textures =~= seq![t]);
    assert(seq![pa][0] == pa);
    assert(seq![pa].drop_first() =~= Seq::<PrimV>::empty());
    assert(prims_step(seq![pa].drop_first(), images, c1) == Ok::<(Seq<MeshV>, Seq<TexV>),
        LoadError,
    >((Seq::<MeshV>::empty(), c1)));
    assert(prims_step(seq![pa], images, c0) is Ok);
    let msa = prims_step(seq![pa], images, c0)->Ok_0;
    assert(msa.0 =~= seq![ma]);
    assert(msa.1 == c1);
    assert(c1[0] == t);
    assert(cache_find(c1, 0) == Some(t));
    assert(cache_step(c1, 0, images[0], TextureRole::Diffuse) == Ok::<(TexV, Seq<TexV>),
        LoadError,
    >((t, c1)));
    assert(resolve_diffuse(pb, images, c1) == Ok::<(Seq<TexV>, Seq<TexV>), LoadError>(
        (seq![t], c1),
    ));
    assert(resolve_specular(pb, images, c1) == (Seq::<TexV>::empty(), c1));
    assert(prim_step(pb, images, c1) is Ok);
    let mb = prim_step(pb, images, c1)->Ok_0.0;
    assert(mb.textures =~= seq![t]);
    assert(seq![pb][0] == pb);
    assert(seq![pb].drop_first() =~= Seq::<PrimV>::empty());
    assert(prims_step(seq![pb].drop_first(), images, c1) == Ok::<(Seq<MeshV>, Seq<TexV>),
        LoadError,
    >((Seq::<MeshV>::empty(), c1)));
    assert(prims_step(seq![pb], images, c1) is Ok);
    let msb = prims_step(seq![pb], images, c1)->Ok_0;
    assert(msb.0 =~= seq![mb]);
    assert(msb.1 == c1);
    assert(s.drop_first() =~= seq![nb]);
    assert(seq![nb].drop_first() =~= Seq::<DocNodeV>::empty());
    assert(seq![nb][0] == nb);
    assert(seq![nb][0].mesh == Some(seq![pb]));
    assert(nodes_step(seq![nb].drop_first(), images, c1) == Ok::<(Seq<NodeV>, Seq<TexV>),
        LoadError,
    >((Seq::<NodeV>::empty(), c1)));
    assert(nodes_step(seq![nb], images, c1) is Ok);
    let outb = nodes_step(seq![nb], images, c1)->Ok_0;
    assert(outb.0 =~= seq![node_of(nb, msb.0)]);
    assert(s[0] == na);
    assert(s[0].mesh == Some(seq![pa]));
    assert(nodes_step(s, images, c0) is Ok);
    let out = nodes_step(s, images, c0)->Ok_0;
    assert(out.0 =~= seq![node_of(na, msa.0)] + outb.0);
    assert(out.0[0].meshes[0] == ma);
    assert(out.0[1].meshes[0] == mb);
    assert(ma.textures == mb.textures);
    assert(load_result(s, images)->Ok_0 == out.0);
}

/// Translating by `d1` and then by `d2` accumulates: each node's stored
/// translation becomes the running vector sum with `d1` then `d2`, and each
/// node's matrix is the original composed with the translation of `d1` and
/// then that of `d2`, in that order; rotation, scale, name and meshes are
/// untouched.
pub proof fn lemma_translate_accumulates(ns: Seq<NodeV>, d1: Vec3Bits, d2: Vec3Bits)
    ensures
        translate_model(translate_model(ns, d1), d2).len() == ns.len(),
        forall|i: int|
            0 <= i < ns.len() ==> #[trigger] translate_model(translate_model(ns, d1), d2)[i]
                == (NodeV {
                transform: NodeTransform {
                    translation: vec3_sum_of(vec3_sum_of(ns[i].transform.translation, d1), d2),
                    ..ns[i].transform
                },
                transform_matrix: translated_of(translated_of(ns[i].transform_matrix, d1), d2),
                ..ns[i]
            }),
{
    assert forall|i: int|
        0 <= i < ns.len() implies #[trigger] translate_model(translate_model(ns, d1), d2)[i]
        == (NodeV {
        transform: NodeTransform {
            translation: vec3_sum_of(vec3_sum_of(ns[i].transform.translation, d1), d2),
            ..ns[i].transform
        },
        transform_matrix: translated_of(translated_of(ns[i].transform_matrix, d1), d2),
        ..ns[i]
    }) by {
        assert(translate_model(ns, d1)[i] == translated_node(ns[i], d1));
        assert(translate_model(translate_model(ns, d1), d2)[i] == translated_node(
            translated_node(ns[i], d1),
            d2,
        ));
    }
}

} // verus!
