//! Transform arithmetic on single-precision values, which verified code
//! holds as IEEE bit patterns throughout. The translation and scaling
//! matrices involve no arithmetic at all — only bits placed into an identity
//! matrix — so they are built and proved here outright. Every remaining
//! operation is performed by `nalgebra_glm`; each is a pure function of its
//! argument bits, so its result is given a name that contracts and proofs
//! share. Those wrappers convert bit patterns to floating-point values and
//! back with `bytemuck`, call the one `glm` operation they are named after,
//! and state nothing beyond the name.

use vstd::prelude::*;

use crate::bits::{Mat4Bits, QuatBits, Vec3Bits, ONE_BITS};

verus! {

/// The homogeneous translation matrix of `t`: an identity matrix with the
/// translation bits placed in the last column. Building it moves no
/// floating-point arithmetic, only bits, so it is stated cell by cell.
pub open spec fn translation_mat_of(t: Vec3Bits) -> Mat4Bits {
    Mat4Bits {
        cells: [
            ONE_BITS, 0u32, 0u32, 0u32, 0u32, ONE_BITS, 0u32, 0u32, 0u32, 0u32, ONE_BITS, 0u32,
            t.x, t.y, t.z, ONE_BITS,
        ],
    }
}

/// The homogeneous nonuniform scaling matrix of `s`: an identity matrix with
/// the scale bits placed on the diagonal, again pure bit placement.
pub open spec fn scaling_mat_of(s: Vec3Bits) -> Mat4Bits {
    Mat4Bits {
        cells: [
            s.x, 0u32, 0u32, 0u32, 0u32, s.y, 0u32, 0u32, 0u32, 0u32, s.z, 0u32, 0u32, 0u32,
            0u32, ONE_BITS,
        ],
    }
}

/// The homogeneous rotation matrix that `nalgebra_glm::quat_to_mat4` builds from `q`.
pub uninterp spec fn rotation_mat_of(q: QuatBits) -> Mat4Bits;

/// The matrix product `a * b`.
pub uninterp spec fn mat_mul_of(a: Mat4Bits, b: Mat4Bits) -> Mat4Bits;

/// The quaternion product `a * b`.
pub uninterp spec fn quat_mul_of(a: QuatBits, b: QuatBits) -> QuatBits;

/// The component-wise vector sum `a + b`.
pub uninterp spec fn vec3_sum_of(a: Vec3Bits, b: Vec3Bits) -> Vec3Bits;

/// The matrix that `nalgebra_glm::translate` returns for `m` and `v`.
pub uninterp spec fn translated_of(m: Mat4Bits, v: Vec3Bits) -> Mat4Bits;

/// The matrix that `nalgebra_glm::scale` returns for `m` and `v`.
pub uninterp spec fn scaled_of(m: Mat4Bits, v: Vec3Bits) -> Mat4Bits;

/// Builds the translation matrix of `t`, exactly `translation_mat_of`.
pub fn translation_matrix(t: &Vec3Bits) -> (m: Mat4Bits)
    ensures
        m == translation_mat_of(*t),
{
    Mat4Bits {
        cells: [
            ONE_BITS, 0u32, 0u32, 0u32, 0u32, ONE_BITS, 0u32, 0u32, 0u32, 0u32, ONE_BITS, 0u32,
            t.x, t.y, t.z, ONE_BITS,
        ],
    }
}

/// Builds the scaling matrix of `s`, exactly `scaling_mat_of`.
pub fn scaling_matrix(s: &Vec3Bits) -> (m: Mat4Bits)
    ensures
        m == scaling_mat_of(*s),
{
    Mat4Bits {
        cells: [
            s.x, 0u32, 0u32, 0u32, 0u32, s.y, 0u32, 0u32, 0u32, 0u32, s.z, 0u32, 0u32, 0u32,
            0u32, ONE_BITS,
        ],
    }
}

/// Relies on nalgebra_glm::quat_to_mat4: converts a rotation quaternion to its
/// homogeneous matrix, a pure function of the argument's bits.
#[verifier::external_body]
pub fn rotation_matrix(q: &QuatBits) -> (m: Mat4Bits)
    ensures
        m == rotation_mat_of(*q),
{
    let qa = [q.x, q.y, q.z, q.w];
    let gq: nalgebra_glm::Quat = nalgebra_glm::make_quat(bytemuck::cast_slice(&qa));
    let r = nalgebra_glm::quat_to_mat4(&gq);
    let rs: &[u32] = bytemuck::cast_slice(r.as_slice());
    let mut cells = [0u32; 16];
    cells.copy_from_slice(rs);
    Mat4Bits { cells }
}

/// Relies on the matrix `Mul` of nalgebra: the product of two 4x4 matrices, a
/// pure function of the arguments' bits.
#[verifier::external_body]
pub fn mat_mul(a: &Mat4Bits, b: &Mat4Bits) -> (m: Mat4Bits)
    ensures
        m == mat_mul_of(*a, *b),
{
    let ga: nalgebra_glm::Mat4 = nalgebra_glm::make_mat4(bytemuck::cast_slice(&a.cells));
    let gb: nalgebra_glm::Mat4 = nalgebra_glm::make_mat4(bytemuck::cast_slice(&b.cells));
    let r = ga * gb;
    let rs: &[u32] = bytemuck::cast_slice(r.as_slice());
    let mut cells = [0u32; 16];
    cells.copy_from_slice(rs);
    Mat4Bits { cells }
}

/// Relies on the quaternion `Mul` of nalgebra: the Hamilton product, a pure
/// function of the arguments' bits.
#[verifier::external_body]
pub fn quat_mul(a: &QuatBits, b: &QuatBits) -> (q: QuatBits)
    ensures
        q == quat_mul_of(*a, *b),
{
    let aa = [a.x, a.y, a.z, a.w];
    let ba = [b.x, b.y, b.z, b.w];
    let ga: nalgebra_glm::Quat = nalgebra_glm::make_quat(bytemuck::cast_slice(&aa));
    let gb: nalgebra_glm::Quat = nalgebra_glm::make_quat(bytemuck::cast_slice(&ba));
    let r = ga * gb;
    let rs: &[u32] = bytemuck::cast_slice(r.coords.as_slice());
    QuatBits { x: rs[0], y: rs[1], z: rs[2], w: rs[3] }
}

/// Relies on the vector `Add` of nalgebra: the component-wise sum, a pure
/// function of the arguments' bits.
#[verifier::external_body]
pub fn vec3_add(a: &Vec3Bits, b: &Vec3Bits) -> (v: Vec3Bits)
    ensures
        v == vec3_sum_of(*a, *b),
{
    let aa = [a.x, a.y, a.z];
    let ba = [b.x, b.y, b.z];
    let ga: nalgebra_glm::Vec3 = nalgebra_glm::make_vec3(bytemuck::cast_slice(&aa));
    let gb: nalgebra_glm::Vec3 = nalgebra_glm::make_vec3(bytemuck::cast_slice(&ba));
    let r = ga + gb;
    let rs: &[u32] = bytemuck::cast_slice(r.as_slice());
    Vec3Bits { x: rs[0], y: rs[1], z: rs[2] }
}

/// Relies on nalgebra_glm::translate: multiplies `m` by the translation matrix
/// of `v` on the right, a pure function of the arguments' bits.
#[verifier::external_body]
pub fn translate_mat(m: &Mat4Bits, v: &Vec3Bits) -> (r: Mat4Bits)
    ensures
        r == translated_of(*m, *v),
{
    let gm: nalgebra_glm::Mat4 = nalgebra_glm::make_mat4(bytemuck::cast_slice(&m.cells));
    let va = [v.x, v.y, v.z];
    let gv: nalgebra_glm::Vec3 = nalgebra_glm::make_vec3(bytemuck::cast_slice(&va));
    let r = nalgebra_glm::translate(&gm, &gv);
    let rs: &[u32] = bytemuck::cast_slice(r.as_slice());
    let mut cells = [0u32; 16];
    cells.copy_from_slice(rs);
    Mat4Bits { cells }
}

/// Relies on nalgebra_glm::scale: multiplies `m` by the scaling matrix of `v`
/// on the right, a pure function of the arguments' bits.
#[verifier::external_body]
pub fn scale_mat(m: &Mat4Bits, v: &Vec3Bits) -> (r: Mat4Bits)
    ensures
        r == scaled_of(*m, *v),
{
    let gm: nalgebra_glm::Mat4 = nalgebra_glm::make_mat4(bytemuck::cast_slice(&m.cells));
    let va = [v.x, v.y, v.z];
    let gv: nalgebra_glm::Vec3 = nalgebra_glm::make_vec3(bytemuck::cast_slice(&va));
    let r = nalgebra_glm::scale(&gm, &gv);
    let rs: &[u32] = bytemuck::cast_slice(r.as_slice());
    let mut cells = [0u32; 16];
    cells.copy_from_slice(rs);
    Mat4Bits { cells }
}

/// Relies on nalgebra_glm::radians and nalgebra_glm::quat_angle_axis: converts
/// degrees to radians and builds the rotation quaternion about `axis`. The
/// trigonometry inside may differ between platforms, so no equation is stated
/// of the result.
#[verifier::external_body]
pub fn quat_from_axis_degrees(axis: &Vec3Bits, degrees: u32) -> QuatBits {
    let aa = [axis.x, axis.y, axis.z];
    let ga: nalgebra_glm::Vec3 = nalgebra_glm::make_vec3(bytemuck::cast_slice(&aa));
    let da = [degrees];
    let rad = nalgebra_glm::radians(&nalgebra_glm::vec1(bytemuck::cast_slice(&da)[0])).x;
    let r = nalgebra_glm::quat_angle_axis(rad, &ga);
    let rs: &[u32] = bytemuck::cast_slice(r.coords.as_slice());
    QuatBits { x: rs[0], y: rs[1], z: rs[2], w: rs[3] }
}

} // verus!
