//! A fixed-size 4×4 matrix of IEEE 754 binary64 values with fully
//! unrolled multiplication and transposition.
//!
//! The entries are carried as their 64-bit patterns, so that the kernel's
//! data movement is verified exactly and its arithmetic is stated exactly
//! over the named binary64 operations of [`arith`].
pub mod arith;

use vstd::prelude::*;
use crate::arith::{add_bits, mul_bits, bits_add, bits_mul};

verus! {

/// A 4×4 grid of binary64 bit patterns, row-major: `m.0[i][j]` is the bit
/// pattern of the entry in row `i`, column `j`.
#[derive(Debug, Copy, Clone)]
pub struct Mat4x4(pub [[u64; 4]; 4]);

impl View for Mat4x4 {
    type V = Seq<Seq<u64>>;

    open spec fn view(&self) -> Seq<Seq<u64>> {
        Seq::new(4, |i: int| self.0@[i]@)
    }
}

/// The transpose of a 4×4 grid: entry `(i, j)` of the result is entry
/// `(j, i)` of `m`.
pub open spec fn transpose_spec(m: Seq<Seq<u64>>) -> Seq<Seq<u64>> {
    Seq::new(4, |i: int| Seq::new(4, |j: int| m[j][i]))
}

/// Column `j` of a 4×4 grid.
pub open spec fn column(m: Seq<Seq<u64>>, j: int) -> Seq<u64> {
    Seq::new(4, |k: int| m[k][j])
}

/// The binary64 dot product of two rows of four, accumulated left to
/// right: `((a0·b0 + a1·b1) + a2·b2) + a3·b3`, each `·` and `+` a rounded
/// binary64 operation.
pub open spec fn dot_bits(a: Seq<u64>, b: Seq<u64>) -> u64 {
    add_bits(
        add_bits(
            add_bits(mul_bits(a[0], b[0]), mul_bits(a[1], b[1])),
            mul_bits(a[2], b[2]),
        ),
        mul_bits(a[3], b[3]),
    )
}

/// The binary64 product of two 4×4 grids: entry `(i, j)` of the result is
/// the dot product of row `i` of `a` and column `j` of `b`, accumulated
/// left to right.
pub open spec fn mul_spec(a: Seq<Seq<u64>>, b: Seq<Seq<u64>>) -> Seq<Seq<u64>> {
    Seq::new(4, |i: int| Seq::new(4, |j: int| dot_bits(a[i], column(b, j))))
}

/// One fully unrolled four-term dot product over bit patterns.
fn dot4(a0: u64, a1: u64, a2: u64, a3: u64, b0: u64, b1: u64, b2: u64, b3: u64) -> (r: u64)
    ensures
        r == add_bits(
            add_bits(add_bits(mul_bits(a0, b0), mul_bits(a1, b1)), mul_bits(a2, b2)),
            mul_bits(a3, b3),
        ),
{
    bits_add(
        bits_add(bits_add(bits_mul(a0, b0), bits_mul(a1, b1)), bits_mul(a2, b2)),
        bits_mul(a3, b3),
    )
}

impl Mat4x4 {
    /// Row `i` of the matrix. An out-of-range row index is a programming
    /// error, not a recoverable condition, and is excluded by precondition.
    pub fn index(&self, i: usize) -> (r: &[u64; 4])
        requires
            i < 4,
        ensures
            r@ == self@[i as int],
    {
        &self.0[i]
    }

    /// The transpose, fully unrolled: a new matrix whose entry `(i, j)`
    /// is this matrix's entry `(j, i)`. The receiver is unchanged.
    pub fn t(&self) -> (r: Mat4x4)
        ensures
            r@ == transpose_spec(self@),
    {
        let r = Mat4x4(
            [
                [self.0[0][0], self.0[1][0], self.0[2][0], self.0[3][0]],
                [self.0[0][1], self.0[1][1], self.0[2][1], self.0[3][1]],
                [self.0[0][2], self.0[1][2], self.0[2][2], self.0[3][2]],
                [self.0[0][3], self.0[1][3], self.0[2][3], self.0[3][3]],
            ],
        );
        proof {
            assert(r@ =~~= transpose_spec(self@));
        }
        r
    }

    /// The binary64 matrix product, fully unrolled: entry `(i, j)` of the
    /// result is the left-to-right accumulated dot product of row `i` of
    /// this matrix and column `j` of `rhs`. Neither operand is changed.
    pub fn mul(&self, rhs: &Mat4x4) -> (r: Mat4x4)
        ensures
            r@ == mul_spec(self@, rhs@),
    {
        let a = &self.0;
        let b = &rhs.0;
        let r = Mat4x4(
            [
                [
                    dot4(a[0][0], a[0][1], a[0][2], a[0][3], b[0][0], b[1][0], b[2][0], b[3][0]),
                    dot4(a[0][0], a[0][1], a[0][2], a[0][3], b[0][1], b[1][1], b[2][1], b[3][1]),
                    dot4(a[0][0], a[0][1], a[0][2], a[0][3], b[0][2], b[1][2], b[2][2], b[3][2]),
                    dot4(a[0][0], a[0][1], a[0][2], a[0][3], b[0][3], b[1][3], b[2][3], b[3][3]),
                ],
                [
                    dot4(a[1][0], a[1][1], a[1][2], a[1][3], b[0][0], b[1][0], b[2][0], b[3][0]),
                    dot4(a[1][0], a[1][1], a[1][2], a[1][3], b[0][1], b[1][1], b[2][1], b[3][1]),
                    dot4(a[1][0], a[1][1], a[1][2], a[1][3], b[0][2], b[1][2], b[2][2], b[3][2]),
                    dot4(a[1][0], a[1][1], a[1][2], a[1][3], b[0][3], b[1][3], b[2][3], b[3][3]),
                ],
                [
                    dot4(a[2][0], a[2][1], a[2][2], a[2][3], b[0][0], b[1][0], b[2][0], b[3][0]),
                    dot4(a[2][0], a[2][1], a[2][2], a[2][3], b[0][1], b[1][1], b[2][1], b[3][1]),
                    dot4(a[2][0], a[2][1], a[2][2], a[2][3], b[0][2], b[1][2], b[2][2], b[3][2]),
                    dot4(a[2][0], a[2][1], a[2][2], a[2][3], b[0][3], b[1][3], b[2][3], b[3][3]),
                ],
                [
                    dot4(a[3][0], a[3][1], a[3][2], a[3][3], b[0][0], b[1][0], b[2][0], b[3][0]),
                    dot4(a[3][0], a[3][1], a[3][2], a[3][3], b[0][1], b[1][1], b[2][1], b[3][1]),
                    dot4(a[3][0], a[3][1], a[3][2], a[3][3], b[0][2], b[1][2], b[2][2], b[3][2]),
                    dot4(a[3][0], a[3][1], a[3][2], a[3][3], b[0][3], b[1][3], b[2][3], b[3][3]),
                ],
            ],
        );
        proof {
            assert(r@ =~~= mul_spec(self@, rhs@));
        }
        r
    }
}

/// Transpose is its own inverse: transposing a 4×4 grid twice gives back
/// the original grid, entry for entry.
pub proof fn lemma_transpose_involution(m: Mat4x4)
    ensures
        transpose_spec(transpose_spec(m@)) == m@,
{
    assert(transpose_spec(transpose_spec(m@)) =~~= m@);
}

} // verus!
