//! The transform pipeline: the baked TRS world matrix, and the accumulation
//! behaviour of the whole-scene translate, rotate and scale operations,
//! checked bit for bit against the same computations done directly.

use nalgebra_glm as glm;

use scene_core::bits::{Mat4Bits, QuatBits, Vec2Bits, Vec3Bits, Vec4Bits};
use scene_core::doc::{DocNode, DocPrimitive, ImageData, SceneDoc};
use scene_core::model::Model;

fn v2(x: f32, y: f32) -> Vec2Bits {
    Vec2Bits { x: x.to_bits(), y: y.to_bits() }
}

fn v3(x: f32, y: f32, z: f32) -> Vec3Bits {
    Vec3Bits { x: x.to_bits(), y: y.to_bits(), z: z.to_bits() }
}

fn v4(x: f32, y: f32, z: f32, w: f32) -> Vec4Bits {
    Vec4Bits { x: x.to_bits(), y: y.to_bits(), z: z.to_bits(), w: w.to_bits() }
}

fn quat(x: f32, y: f32, z: f32, w: f32) -> QuatBits {
    QuatBits { x: x.to_bits(), y: y.to_bits(), z: z.to_bits(), w: w.to_bits() }
}

fn glm_vec3(v: &Vec3Bits) -> glm::Vec3 {
    glm::vec3(f32::from_bits(v.x), f32::from_bits(v.y), f32::from_bits(v.z))
}

fn glm_quat(q: &QuatBits) -> glm::Quat {
    glm::quat(f32::from_bits(q.x), f32::from_bits(q.y), f32::from_bits(q.z), f32::from_bits(q.w))
}

fn mat_bits(m: &glm::Mat4) -> [u32; 16] {
    let mut cells = [0u32; 16];
    for (i, v) in m.as_slice().iter().enumerate() {
        cells[i] = v.to_bits();
    }
    cells
}

fn one_prim_doc(translation: Vec3Bits, rotation: QuatBits, scale: Vec3Bits) -> SceneDoc {
    let prim = DocPrimitive {
        positions: Some(vec![v3(0.0, 0.0, 0.0)]),
        normals: Some(vec![v3(0.0, 0.0, 1.0)]),
        tex_coords: Some(vec![v2(0.0, 0.0)]),
        colors: None,
        indices: None,
        base_color_factor: v4(1.0, 1.0, 1.0, 1.0),
        double_sided: false,
        base_color_image: None,
        metallic_roughness_image: None,
    };
    let node = DocNode {
        name: Some(String::from("subject")),
        translation,
        rotation,
        scale,
        mesh: Some(vec![prim]),
    };
    SceneDoc { nodes: vec![node] }
}

#[test]
fn world_matrix_is_translation_times_rotation_times_scale() {
    let t = v3(1.5, -2.0, 0.25);
    let r = quat(0.1, 0.2, 0.3, 0.9);
    let s = v3(2.0, 3.0, 4.0);
    let doc = one_prim_doc(t, r, s);
    let images: Vec<ImageData> = Vec::new();
    let model = Model::new(&doc, &images).unwrap();
    let expected = glm::translation(&glm_vec3(&t)) * glm::quat_to_mat4(&glm_quat(&r))
        * glm::scaling(&glm_vec3(&s));
    assert_eq!(model.nodes[0].transform_matrix, Mat4Bits { cells: mat_bits(&expected) });
    assert_eq!(model.nodes[0].transform.translation, t);
    assert_eq!(model.nodes[0].transform.rotation, r);
    assert_eq!(model.nodes[0].transform.scale, s);
}

#[test]
fn translate_accumulates_vector_sum_and_matrix_composition() {
    let t0 = v3(1.0, 2.0, 3.0);
    let doc = one_prim_doc(t0, quat(0.0, 0.0, 0.0, 1.0), v3(1.0, 1.0, 1.0));
    let images: Vec<ImageData> = Vec::new();
    let mut model = Model::new(&doc, &images).unwrap();
    let m0 = model.nodes[0].transform_matrix;
    let d1 = v3(0.5, -1.0, 2.0);
    let d2 = v3(-0.25, 4.0, 1.0);
    model.translate(d1);
    model.translate(d2);
    let summed = glm_vec3(&t0) + glm_vec3(&d1) + glm_vec3(&d2);
    assert_eq!(model.nodes[0].transform.translation, v3(summed.x, summed.y, summed.z));
    let m0_glm = glm::make_mat4(
        &m0.cells.iter().map(|b| f32::from_bits(*b)).collect::<Vec<f32>>(),
    );
    let expected = glm::translate(&glm::translate(&m0_glm, &glm_vec3(&d1)), &glm_vec3(&d2));
    assert_eq!(model.nodes[0].transform_matrix, Mat4Bits { cells: mat_bits(&expected) });
    assert_eq!(model.nodes[0].transform.scale, v3(1.0, 1.0, 1.0));
    assert_eq!(model.nodes[0].name, "subject");
}

#[test]
fn scale_accumulates_by_vector_addition() {
    let s0 = v3(1.0, 1.0, 1.0);
    let doc = one_prim_doc(v3(0.0, 0.0, 0.0), quat(0.0, 0.0, 0.0, 1.0), s0);
    let images: Vec<ImageData> = Vec::new();
    let mut model = Model::new(&doc, &images).unwrap();
    let m0 = model.nodes[0].transform_matrix;
    let f = v3(0.5, 0.5, 2.0);
    model.scale(f);
    let summed = glm_vec3(&s0) + glm_vec3(&f);
    assert_eq!(model.nodes[0].transform.scale, v3(summed.x, summed.y, summed.z));
    let m0_glm = glm::make_mat4(
        &m0.cells.iter().map(|b| f32::from_bits(*b)).collect::<Vec<f32>>(),
    );
    let expected = glm::scale(&m0_glm, &glm_vec3(&f));
    assert_eq!(model.nodes[0].transform_matrix, Mat4Bits { cells: mat_bits(&expected) });
}

#[test]
fn rotate_and_rotate_back_restores_rotation() {
    let r0 = quat(0.0, 0.0, 0.0, 1.0);
    let doc = one_prim_doc(v3(1.0, 0.0, 0.0), r0, v3(1.0, 1.0, 1.0));
    let images: Vec<ImageData> = Vec::new();
    let mut model = Model::new(&doc, &images).unwrap();
    let axis = v3(0.0, 1.0, 0.0);
    model.rotate(axis, 90f32.to_bits());
    let quarter = model.nodes[0].transform.rotation;
    assert_ne!(quarter, r0);
    model.rotate(axis, (-90f32).to_bits());
    let back = model.nodes[0].transform.rotation;
    let got = glm_quat(&back);
    let want = glm_quat(&r0);
    for (a, b) in got.coords.iter().zip(want.coords.iter()) {
        assert!((a - b).abs() < 1e-6, "component {a} differs from {b}");
    }
}

#[test]
fn rotate_by_known_quaternion_composes_exactly() {
    let r0 = quat(0.1, 0.2, 0.3, 0.9);
    let doc = one_prim_doc(v3(1.0, 2.0, 3.0), r0, v3(1.0, 1.0, 1.0));
    let images: Vec<ImageData> = Vec::new();
    let mut model = Model::new(&doc, &images).unwrap();
    let m0 = model.nodes[0].transform_matrix;
    let q = quat(0.5, 0.5, 0.5, 0.5);
    model.rotate_by(q);
    let expected_rotation = glm_quat(&q) * glm_quat(&r0);
    let got = glm_quat(&model.nodes[0].transform.rotation);
    assert_eq!(got.coords.map(|c| c.to_bits()), expected_rotation.coords.map(|c| c.to_bits()));
    let m0_glm = glm::make_mat4(
        &m0.cells.iter().map(|b| f32::from_bits(*b)).collect::<Vec<f32>>(),
    );
    let expected_matrix = glm::quat_to_mat4(&glm_quat(&q)) * m0_glm;
    assert_eq!(model.nodes[0].transform_matrix, Mat4Bits { cells: mat_bits(&expected_matrix) });
}

#[test]
fn rotate_applies_one_quaternion_to_every_node() {
    let prim = || DocPrimitive {
        positions: Some(vec![v3(0.0, 0.0, 0.0)]),
        normals: Some(vec![v3(0.0, 0.0, 1.0)]),
        tex_coords: Some(vec![v2(0.0, 0.0)]),
        colors: None,
        indices: None,
        base_color_factor: v4(1.0, 1.0, 1.0, 1.0),
        double_sided: false,
        base_color_image: None,
        metallic_roughness_image: None,
    };
    let node = |name: &str| DocNode {
        name: Some(String::from(name)),
        translation: v3(0.0, 0.0, 0.0),
        rotation: quat(0.0, 0.0, 0.0, 1.0),
        scale: v3(1.0, 1.0, 1.0),
        mesh: Some(vec![prim()]),
    };
    let doc = SceneDoc { nodes: vec![node("a"), node("b")] };
    let images: Vec<ImageData> = Vec::new();
    let mut model = Model::new(&doc, &images).unwrap();
    model.rotate(v3(1.0, 0.0, 0.0), 30f32.to_bits());
    assert_eq!(model.nodes[0].transform.rotation, model.nodes[1].transform.rotation);
    assert_eq!(model.nodes[0].transform_matrix, model.nodes[1].transform_matrix);
}
