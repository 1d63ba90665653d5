//! Loading a document: node emission, attribute defaults, fatal errors, and
//! texture sharing through the cache.

use std::rc::Rc;

use scene_core::bits::{QuatBits, Vec2Bits, Vec3Bits, Vec4Bits};
use scene_core::doc::{DocNode, DocPrimitive, ImageData, SceneDoc};
use scene_core::error::LoadError;
use scene_core::model::Model;
use scene_core::texture::{PixelFormat, TextureCache, TextureRole};

fn v2(x: f32, y: f32) -> Vec2Bits {
    Vec2Bits { x: x.to_bits(), y: y.to_bits() }
}

fn v3(x: f32, y: f32, z: f32) -> Vec3Bits {
    Vec3Bits { x: x.to_bits(), y: y.to_bits(), z: z.to_bits() }
}

fn v4(x: f32, y: f32, z: f32, w: f32) -> Vec4Bits {
    Vec4Bits { x: x.to_bits(), y: y.to_bits(), z: z.to_bits(), w: w.to_bits() }
}

fn identity_quat() -> QuatBits {
    QuatBits { x: 0f32.to_bits(), y: 0f32.to_bits(), z: 0f32.to_bits(), w: 1f32.to_bits() }
}

fn base_prim() -> DocPrimitive {
    DocPrimitive {
        positions: Some(vec![v3(0.0, 0.0, 0.0), v3(1.0, 0.0, 0.0), v3(0.0, 1.0, 0.0)]),
        normals: Some(vec![v3(0.0, 0.0, 1.0), v3(0.0, 0.0, 1.0), v3(0.0, 0.0, 1.0)]),
        tex_coords: Some(vec![v2(0.0, 0.0), v2(1.0, 0.0), v2(0.0, 1.0)]),
        colors: None,
        indices: Some(vec![0, 1, 2]),
        base_color_factor: v4(1.0, 1.0, 1.0, 1.0),
        double_sided: false,
        base_color_image: None,
        metallic_roughness_image: None,
    }
}

fn node_with(prims: Vec<DocPrimitive>) -> DocNode {
    DocNode {
        name: None,
        translation: v3(0.0, 0.0, 0.0),
        rotation: identity_quat(),
        scale: v3(1.0, 1.0, 1.0),
        mesh: Some(prims),
    }
}

fn meshless_node() -> DocNode {
    DocNode {
        name: Some(String::from("empty")),
        translation: v3(0.0, 0.0, 0.0),
        rotation: identity_quat(),
        scale: v3(1.0, 1.0, 1.0),
        mesh: None,
    }
}

fn image(channels: u32) -> ImageData {
    ImageData { pixels: vec![0u8; 16], width: 2, height: 2, channels }
}

#[test]
fn meshless_node_is_skipped() {
    let mut prim = base_prim();
    prim.base_color_image = Some(0);
    let doc = SceneDoc { nodes: vec![meshless_node(), node_with(vec![prim])] };
    let images = vec![image(4)];
    let model = Model::new(&doc, &images).unwrap();
    assert_eq!(model.nodes.len(), 1);
    assert_eq!(model.nodes[0].name, "");
    assert_eq!(model.nodes[0].mesh_primitives.len(), 1);
    let mesh = &model.nodes[0].mesh_primitives[0];
    let white = 1f32.to_bits();
    for vertex in &mesh.vertices {
        assert_eq!(vertex.color, Vec4Bits { x: white, y: white, z: white, w: white });
    }
    assert_eq!(mesh.textures.len(), 1);
    assert_eq!(mesh.textures[0].role, TextureRole::Diffuse);
    assert_eq!(mesh.textures[0].format, PixelFormat::Rgba);
    assert_eq!(mesh.textures[0].image_index, 0);
    assert_eq!(mesh.indices, vec![0, 1, 2]);
    assert_eq!(mesh.vertices[1].position, v3(1.0, 0.0, 0.0));
    assert_eq!(mesh.vertices[1].normal, v3(0.0, 0.0, 1.0));
    assert_eq!(mesh.vertices[1].uv, v2(1.0, 0.0));
    assert_eq!(mesh.base_color, v4(1.0, 1.0, 1.0, 1.0));
    assert!(!mesh.double_sided);
}

#[test]
fn node_order_is_document_order() {
    let mut first = node_with(vec![base_prim()]);
    first.name = Some(String::from("alpha"));
    let mut second = node_with(vec![base_prim()]);
    second.name = Some(String::from("beta"));
    let doc = SceneDoc { nodes: vec![first, meshless_node(), second] };
    let images: Vec<ImageData> = Vec::new();
    let model = Model::new(&doc, &images).unwrap();
    assert_eq!(model.nodes.len(), 2);
    assert_eq!(model.nodes[0].name, "alpha");
    assert_eq!(model.nodes[1].name, "beta");
}

#[test]
fn missing_colors_default_to_white() {
    let doc = SceneDoc { nodes: vec![node_with(vec![base_prim()])] };
    let images: Vec<ImageData> = Vec::new();
    let model = Model::new(&doc, &images).unwrap();
    let mesh = &model.nodes[0].mesh_primitives[0];
    let white = 1f32.to_bits();
    assert_eq!(mesh.vertices.len(), 3);
    for vertex in &mesh.vertices {
        assert_eq!(vertex.color, Vec4Bits { x: white, y: white, z: white, w: white });
    }
}

#[test]
fn present_colors_collapse_to_first() {
    let mut prim = base_prim();
    prim.colors = Some(vec![v4(0.5, 0.25, 0.125, 1.0), v4(0.0, 1.0, 0.0, 1.0)]);
    let doc = SceneDoc { nodes: vec![node_with(vec![prim])] };
    let images: Vec<ImageData> = Vec::new();
    let model = Model::new(&doc, &images).unwrap();
    let mesh = &model.nodes[0].mesh_primitives[0];
    for vertex in &mesh.vertices {
        assert_eq!(vertex.color, v4(0.5, 0.25, 0.125, 1.0));
    }
}

#[test]
fn missing_indices_yield_empty_sequence() {
    let mut prim = base_prim();
    prim.indices = None;
    let doc = SceneDoc { nodes: vec![node_with(vec![prim])] };
    let images: Vec<ImageData> = Vec::new();
    let model = Model::new(&doc, &images).unwrap();
    let mesh = &model.nodes[0].mesh_primitives[0];
    assert!(mesh.indices.is_empty());
    assert_eq!(mesh.vertices.len(), 3);
}

#[test]
fn missing_positions_are_fatal() {
    let mut prim = base_prim();
    prim.positions = None;
    let doc = SceneDoc { nodes: vec![node_with(vec![prim])] };
    let images: Vec<ImageData> = Vec::new();
    assert_eq!(Model::new(&doc, &images).unwrap_err(), LoadError::MissingPositions);
}

#[test]
fn missing_normals_are_fatal() {
    let mut prim = base_prim();
    prim.normals = None;
    let doc = SceneDoc { nodes: vec![node_with(vec![prim])] };
    let images: Vec<ImageData> = Vec::new();
    assert_eq!(Model::new(&doc, &images).unwrap_err(), LoadError::MissingNormals);
}

#[test]
fn missing_tex_coords_are_fatal() {
    let mut prim = base_prim();
    prim.tex_coords = None;
    let doc = SceneDoc { nodes: vec![node_with(vec![prim])] };
    let images: Vec<ImageData> = Vec::new();
    assert_eq!(Model::new(&doc, &images).unwrap_err(), LoadError::MissingTexCoords);
}

#[test]
fn unsupported_base_color_format_is_fatal() {
    let mut prim = base_prim();
    prim.base_color_image = Some(0);
    let doc = SceneDoc { nodes: vec![node_with(vec![prim])] };
    let images = vec![image(2)];
    assert_eq!(Model::new(&doc, &images).unwrap_err(), LoadError::UnsupportedDiffuseFormat);
}

#[test]
fn one_channel_base_color_resolves_to_red() {
    let mut prim = base_prim();
    prim.base_color_image = Some(0);
    let doc = SceneDoc { nodes: vec![node_with(vec![prim])] };
    let images = vec![image(1)];
    let model = Model::new(&doc, &images).unwrap();
    let mesh = &model.nodes[0].mesh_primitives[0];
    assert_eq!(mesh.textures[0].format, PixelFormat::Red);
}

#[test]
fn unrecognized_specular_format_degrades_to_rgb() {
    let mut prim = base_prim();
    prim.metallic_roughness_image = Some(0);
    let doc = SceneDoc { nodes: vec![node_with(vec![prim])] };
    let images = vec![image(2)];
    let model = Model::new(&doc, &images).unwrap();
    let mesh = &model.nodes[0].mesh_primitives[0];
    assert_eq!(mesh.textures.len(), 1);
    assert_eq!(mesh.textures[0].role, TextureRole::Specular);
    assert_eq!(mesh.textures[0].format, PixelFormat::Rgb);
}

#[test]
fn shared_image_yields_identical_texture_handles() {
    let mut a = base_prim();
    a.base_color_image = Some(0);
    let mut b = base_prim();
    b.base_color_image = Some(0);
    let doc = SceneDoc { nodes: vec![node_with(vec![a]), node_with(vec![b])] };
    let images = vec![image(3)];
    let model = Model::new(&doc, &images).unwrap();
    let t1 = &model.nodes[0].mesh_primitives[0].textures[0];
    let t2 = &model.nodes[1].mesh_primitives[0].textures[0];
    assert!(Rc::ptr_eq(t1, t2));
    assert_eq!(t1.format, PixelFormat::Rgb);
}

#[test]
fn repeat_request_keeps_first_role() {
    let mut a = base_prim();
    a.base_color_image = Some(0);
    let mut b = base_prim();
    b.metallic_roughness_image = Some(0);
    let doc = SceneDoc { nodes: vec![node_with(vec![a, b])] };
    let images = vec![image(4)];
    let model = Model::new(&doc, &images).unwrap();
    let t1 = &model.nodes[0].mesh_primitives[0].textures[0];
    let t2 = &model.nodes[0].mesh_primitives[1].textures[0];
    assert!(Rc::ptr_eq(t1, t2));
    assert_eq!(t2.role, TextureRole::Diffuse);
}

#[test]
fn cache_loads_each_index_once() {
    let mut cache = TextureCache::new();
    let img = image(4);
    let first = cache.get_or_load(7, &img, TextureRole::Diffuse).unwrap();
    let second = cache.get_or_load(7, &img, TextureRole::Specular).unwrap();
    assert!(Rc::ptr_eq(&first, &second));
    assert_eq!(cache.loaded.len(), 1);
    assert_eq!(first.role, TextureRole::Diffuse);
    assert_eq!(first.pixels, img.pixels);
    assert_eq!((first.width, first.height), (2, 2));
}

#[test]
fn cache_rejects_unsupported_diffuse_channels() {
    let mut cache = TextureCache::new();
    let img = image(5);
    assert_eq!(
        cache.get_or_load(0, &img, TextureRole::Diffuse).unwrap_err(),
        LoadError::UnsupportedDiffuseFormat
    );
    assert_eq!(cache.loaded.len(), 0);
}
