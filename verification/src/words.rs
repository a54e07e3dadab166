//! Numbers as the graphics driver reads them.
//!
//! Coordinates, colours and matrix entries pass through this crate as the bit
//! patterns of IEEE-754 single-precision values. The crate stores, orders and
//! forwards them; it never does arithmetic on them.

use vstd::prelude::*;

verus! {

/// One mesh vertex: the `x`, `y` and `z` coordinates.
pub type Vertex = [u32; 3];

/// One triangle: three indices into the vertex list of its mesh.
pub type TriangleIndices = [i32; 3];

/// Three single-precision values.
pub type Vec3 = [u32; 3];

/// Four single-precision values.
pub type Vec4 = [u32; 4];

/// The four components of a quaternion, in the order `i`, `j`, `k`, `l`,
/// where `l` is the scalar part.
pub type QuaternionWords = [u32; 4];

/// A 4x4 matrix, stored as four columns of four entries each.
pub type Mat4 = [[u32; 4]; 4];

/// The bit pattern of `0.0`.
pub const ZERO: u32 = 0x0000_0000;

/// The bit pattern of `1.0`.
pub const ONE: u32 = 0x3F80_0000;

/// The bit pattern of `-1.0`.
pub const NEG_ONE: u32 = 0xBF80_0000;

/// The bit pattern of `0.5`.
pub const HALF: u32 = 0x3F00_0000;

/// The bit pattern of `-0.5`.
pub const NEG_HALF: u32 = 0xBF00_0000;

/// The bit pattern of the golden ratio `(1 + sqrt(5)) / 2`, rounded to single
/// precision.
pub const PHI: u32 = 0x3FCF_1BBD;

/// The bit pattern of the negated golden ratio.
pub const NEG_PHI: u32 = 0xBFCF_1BBD;

/// The entries of `mat` in storage order: column after column, and within a
/// column from the first row to the last.
pub open spec fn flattened<T>(mat: [[T; 4]; 4]) -> Seq<T> {
    Seq::new(16, |k: int| mat@[k / 4]@[k % 4])
}

/// Lays a 4x4 matrix out as the sixteen consecutive entries that a driver
/// upload expects.
pub fn flatten<T: Copy>(mat: &[[T; 4]; 4]) -> (out: Vec<T>)
    ensures
        out@ == flattened(*mat),
{
    let mut out: Vec<T> = Vec::new();
    let mut c: usize = 0;
    while c < 4
        invariant
            c <= 4,
            out@.len() == 4 * c,
            forall|k: int| 0 <= k < out@.len() ==> out@[k] == #[trigger] flattened(*mat)[k],
        decreases 4 - c,
    {
        let mut r: usize = 0;
        while r < 4
            invariant
                c < 4,
                r <= 4,
                out@.len() == 4 * c + r,
                forall|k: int| 0 <= k < out@.len() ==> out@[k] == #[trigger] flattened(*mat)[k],
            decreases 4 - r,
        {
            out.push(mat[c][r]);
            r += 1;
        }
        c += 1;
    }
    out
}

} // verus!
