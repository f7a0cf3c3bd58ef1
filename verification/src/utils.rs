//! Column-major matrices and their conversion to the uniform layout.
//!
//! The shader takes its transform uniforms as a plain 4x4 column-major
//! scalar array. [`convert_mat4`] turns a [`Mat4`] into that array and,
//! on the way, applies a uniform scale that is only meant for models
//! rotating about the z axis: it scales the x and y components of the
//! first two columns and the z component of the third, and leaves the
//! fourth (translation) column untouched. Entries are plain integers;
//! the application shell runs the same layout on floating-point
//! matrices.

use vstd::prelude::*;

verus! {

/// One column of a 4x4 matrix.
#[derive(Clone, Copy, Debug, PartialEq, Eq, Structural)]
pub struct Vec4 {
    pub x: i32,
    pub y: i32,
    pub z: i32,
    pub w: i32,
}

/// A 4x4 matrix, stored as four columns.
#[derive(Clone, Copy, Debug, PartialEq, Eq)]
pub struct Mat4 {
    pub cols: [Vec4; 4],
}

/// The component of column `c` at row `r`.
pub open spec fn entry(m: Mat4, c: int, r: int) -> i32
    recommends
        0 <= c < 4,
        0 <= r < 4,
{
    let col = m.cols[c];
    if r == 0 {
        col.x
    } else if r == 1 {
        col.y
    } else if r == 2 {
        col.z
    } else {
        col.w
    }
}

/// Whether the conversion scales the component of column `c` at row `r`:
/// the x and y components of the first two columns and the z component
/// of the third.
pub open spec fn scaled(c: int, r: int) -> bool {
    ||| c == 0 && r == 0
    ||| c == 0 && r == 1
    ||| c == 1 && r == 0
    ||| c == 1 && r == 1
    ||| c == 2 && r == 2
}

/// What the converted matrix holds of column `c` at row `r`.
pub open spec fn converted_entry(m: Mat4, scale: int, c: int, r: int) -> int
    recommends
        0 <= c < 4,
        0 <= r < 4,
{
    if scaled(c, r) {
        entry(m, c, r) * scale
    } else {
        entry(m, c, r) as int
    }
}

/// The product of two values in 32-bit signed range stays well inside
/// 64-bit signed range.
proof fn lemma_mul_i32_fits_i64(a: int, b: int)
    requires
        i32::MIN <= a <= i32::MAX,
        i32::MIN <= b <= i32::MAX,
    ensures
        i64::MIN <= a * b <= i64::MAX,
{
    assert(a * b <= 0x4000_0000_0000_0000 && -0x4000_0000_0000_0000 <= a * b)
        by (nonlinear_arith)
        requires
            -0x8000_0000 <= a <= 0x7fff_ffff,
            -0x8000_0000 <= b <= 0x7fff_ffff,
    ;
}

/// Lays a matrix out as the plain column-major array the shader
/// uniforms take, scaling the x and y components of the first two
/// columns and the z component of the third by `scale`.
pub fn convert_mat4(mat: &Mat4, scale: i32) -> (m: [[i64; 4]; 4])
    ensures
        forall|c: int, r: int|
            0 <= c < 4 && 0 <= r < 4 ==> #[trigger] m[c][r] == converted_entry(*mat, scale as int, c, r),
{
    let s = scale as i64;
    proof {
        lemma_mul_i32_fits_i64(mat.cols[0].x as int, scale as int);
        lemma_mul_i32_fits_i64(mat.cols[0].y as int, scale as int);
        lemma_mul_i32_fits_i64(mat.cols[1].x as int, scale as int);
        lemma_mul_i32_fits_i64(mat.cols[1].y as int, scale as int);
        lemma_mul_i32_fits_i64(mat.cols[2].z as int, scale as int);
    }
    let c0 = mat.cols[0];
    let c1 = mat.cols[1];
    let c2 = mat.cols[2];
    let c3 = mat.cols[3];
    [
        [c0.x as i64 * s, c0.y as i64 * s, c0.z as i64, c0.w as i64],
        [c1.x as i64 * s, c1.y as i64 * s, c1.z as i64, c1.w as i64],
        [c2.x as i64, c2.y as i64, c2.z as i64 * s, c2.w as i64],
        [c3.x as i64, c3.y as i64, c3.z as i64, c3.w as i64],
    ]
}

} // verus!
