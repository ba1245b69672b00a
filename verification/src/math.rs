//! Vectors, quaternions and matrices carried as IEEE 754 single-precision
//! bit patterns, so that contracts can speak of them as plain `u32` values.
//!
//! The arithmetic itself (matrix inversion, matrix products, the perspective
//! divide) is delegated to the `glam` linear-algebra crate through trusted
//! wrappers; each wrapper's result is named by an uninterpreted spec function
//! of the operand bits alone, except quaternion inversion, whose result the
//! documentation pins down exactly (the conjugate, a sign flip on three
//! components).

use vstd::prelude::*;

verus! {

/// Bit pattern of the single-precision value one, used as the homogeneous
/// coordinate of a point.
pub const ONE_BITS: u32 = 0x3F80_0000;

/// Bit pattern of the single-precision value zero.
pub const ZERO_BITS: u32 = 0x0000_0000;

/// The sign bit of a single-precision value.
pub const SIGN_BIT: u32 = 0x8000_0000;

/// A three-component vector of single-precision bit patterns.
#[derive(Clone, Copy, PartialEq, Eq, Structural, Debug)]
pub struct Vec3Bits {
    pub x: u32,
    pub y: u32,
    pub z: u32,
}

/// A four-component vector of single-precision bit patterns.
#[derive(Clone, Copy, PartialEq, Eq, Structural, Debug)]
pub struct Vec4Bits {
    pub x: u32,
    pub y: u32,
    pub z: u32,
    pub w: u32,
}

/// A rotation quaternion as four single-precision bit patterns.
#[derive(Clone, Copy, PartialEq, Eq, Structural, Debug)]
pub struct QuatBits {
    pub x: u32,
    pub y: u32,
    pub z: u32,
    pub w: u32,
}

/// A column-major 4x4 matrix as sixteen single-precision bit patterns,
/// in the order of `glam::Mat4::to_cols_array`.
#[derive(Clone, Copy, Debug)]
pub struct Mat4Bits {
    pub cols: [u32; 16],
}

impl View for Vec3Bits {
    type V = Seq<u32>;

    open spec fn view(&self) -> Seq<u32> {
        seq![self.x, self.y, self.z]
    }
}

impl View for Vec4Bits {
    type V = Seq<u32>;

    open spec fn view(&self) -> Seq<u32> {
        seq![self.x, self.y, self.z, self.w]
    }
}

impl View for QuatBits {
    type V = Seq<u32>;

    open spec fn view(&self) -> Seq<u32> {
        seq![self.x, self.y, self.z, self.w]
    }
}

impl View for Mat4Bits {
    type V = Seq<u32>;

    open spec fn view(&self) -> Seq<u32> {
        self.cols@
    }
}

/// The bits of the inverse of the matrix with the given bits.
pub uninterp spec fn mat4_inverse_bits(m: Seq<u32>) -> Seq<u32>;

/// The bits of the product of the two matrices with the given bits.
pub uninterp spec fn mat4_mul_bits(a: Seq<u32>, b: Seq<u32>) -> Seq<u32>;

/// The bits of the matrix with bits `m` applied to the vector with bits `v`.
pub uninterp spec fn mat4_mul_vec4_bits(m: Seq<u32>, v: Seq<u32>) -> Seq<u32>;

/// The bits of the vector with bits `v` divided componentwise by its own
/// fourth (homogeneous) component.
pub uninterp spec fn vec4_div_w_bits(v: Seq<u32>) -> Seq<u32>;

/// The bit pattern with the sign bit toggled: negation of the
/// single-precision value it encodes.
pub open spec fn flip_sign_bits(b: u32) -> u32 {
    b ^ SIGN_BIT
}

/// The bits of the conjugate of the quaternion with the given bits: the
/// three imaginary components negated, the real component kept. For a unit
/// quaternion this is the inverse rotation.
pub open spec fn quat_conjugate_bits(q: Seq<u32>) -> Seq<u32> {
    seq![flip_sign_bits(q[0]), flip_sign_bits(q[1]), flip_sign_bits(q[2]), q[3]]
}

/// Relies on glam::Quat::inverse, which its documentation and source pin to
/// the conjugate (assuming, without checking, that the operand is
/// normalized); negating a single-precision component toggles its sign bit.
#[verifier::external_body]
pub fn quat_inverse(q: &QuatBits) -> (r: QuatBits)
    ensures
        r@ == quat_conjugate_bits(q@),
{
    let g = glam::Quat::from_array(bytemuck::cast([q.x, q.y, q.z, q.w])).inverse();
    let [x, y, z, w]: [u32; 4] = bytemuck::cast(g.to_array());
    QuatBits { x, y, z, w }
}

/// Relies on glam::Mat4::inverse: the result depends on the entry bits
/// alone, and the call returns for every operand (its debug assertions are
/// compiled out).
#[verifier::external_body]
pub fn mat4_inverse(m: &Mat4Bits) -> (r: Mat4Bits)
    ensures
        r@ == mat4_inverse_bits(m@),
{
    let g = glam::Mat4::from_cols_array(&bytemuck::cast(m.cols)).inverse();
    Mat4Bits { cols: bytemuck::cast(g.to_cols_array()) }
}

/// Relies on glam::Mat4::mul_mat4, the matrix product: the result depends on
/// the entry bits alone.
#[verifier::external_body]
pub fn mat4_mul(a: &Mat4Bits, b: &Mat4Bits) -> (r: Mat4Bits)
    ensures
        r@ == mat4_mul_bits(a@, b@),
{
    let ga = glam::Mat4::from_cols_array(&bytemuck::cast(a.cols));
    let gb = glam::Mat4::from_cols_array(&bytemuck::cast(b.cols));
    Mat4Bits { cols: bytemuck::cast(ga.mul_mat4(&gb).to_cols_array()) }
}

/// Relies on glam::Mat4::mul_vec4, the matrix-vector product: the result
/// depends on the entry bits alone.
#[verifier::external_body]
pub fn mat4_mul_vec4(m: &Mat4Bits, v: &Vec4Bits) -> (r: Vec4Bits)
    ensures
        r@ == mat4_mul_vec4_bits(m@, v@),
{
    let g = glam::Mat4::from_cols_array(&bytemuck::cast(m.cols));
    let gv = glam::Vec4::from_array(bytemuck::cast([v.x, v.y, v.z, v.w]));
    let [x, y, z, w]: [u32; 4] = bytemuck::cast(g.mul_vec4(gv).to_array());
    Vec4Bits { x, y, z, w }
}

/// Relies on glam's scalar division of Vec4 (Div<f32> for Vec4): the result
/// depends on the component bits alone. The divisor handed to it is the
/// operand's own fourth component.
#[verifier::external_body]
pub fn vec4_div_w(v: &Vec4Bits) -> (r: Vec4Bits)
    ensures
        r@ == vec4_div_w_bits(v@),
{
    let g = glam::Vec4::from_array(bytemuck::cast([v.x, v.y, v.z, v.w]));
    let [x, y, z, w]: [u32; 4] = bytemuck::cast((g / g.w).to_array());
    Vec4Bits { x, y, z, w }
}

/// The anchor point extended to a homogeneous clip-space point, with a
/// fourth component of one.
pub open spec fn extend_one_bits(a: Seq<u32>) -> Seq<u32> {
    seq![a[0], a[1], a[2], ONE_BITS]
}

/// The first three components: the perspective-divided point without its
/// homogeneous component.
pub open spec fn truncate_bits(v: Seq<u32>) -> Seq<u32> {
    seq![v[0], v[1], v[2]]
}

/// The unprojection of the clip-space anchor `a` through projection matrix
/// `p` and camera-to-world matrix `v`: the world-space point that appears at
/// `a` in the camera's viewport, as the bits `glam` computes for
/// `(v * inverse(p)) * (a, 1)` after the perspective divide.
pub open spec fn spec_unproject(p: Seq<u32>, v: Seq<u32>, a: Seq<u32>) -> Seq<u32> {
    truncate_bits(
        vec4_div_w_bits(mat4_mul_vec4_bits(mat4_mul_bits(v, mat4_inverse_bits(p)), extend_one_bits(a))),
    )
}

/// Converts the fixed clip-space anchor into a world-space position for the
/// position-source camera: unprojection through the camera's projection
/// matrix and camera-to-world transform, then a perspective divide.
pub fn unproject_anchor(projection: &Mat4Bits, camera_to_world: &Mat4Bits, anchor: &Vec3Bits) -> (r:
    Vec3Bits)
    ensures
        r@ == spec_unproject(projection@, camera_to_world@, anchor@),
{
    let inv_proj = mat4_inverse(projection);
    let m = mat4_mul(camera_to_world, &inv_proj);
    let clip = Vec4Bits { x: anchor.x, y: anchor.y, z: anchor.z, w: ONE_BITS };
    proof {
        assert(clip@ =~= extend_one_bits(anchor@));
    }
    let world = mat4_mul_vec4(&m, &clip);
    let divided = vec4_div_w(&world);
    let r = Vec3Bits { x: divided.x, y: divided.y, z: divided.z };
    proof {
        assert(r@ =~= truncate_bits(divided@));
    }
    r
}

} // verus!
