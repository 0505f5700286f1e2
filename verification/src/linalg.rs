//! A 3x3 matrix over the real scalar of the numeric foundation, used by the
//! linear-matrix transform engine.

use vstd::prelude::*;
use crate::channel::{FreeChannelScalar, RealCast};

verus! {

/// The dot product of row `i` of a row-major 3x3 entry sequence with
/// `(v0, v1, v2)`, accumulated left to right.
pub open spec fn dot_row_spec<R: FreeChannelScalar>(vals: Seq<R>, i: int, v0: R, v1: R, v2: R) -> R {
    vals[3 * i].r_mul_spec(v0).r_add_spec(vals[3 * i + 1].r_mul_spec(v1)).r_add_spec(
        vals[3 * i + 2].r_mul_spec(v2),
    )
}

/// A 3x3 matrix applied to a channel triple: each component is converted to
/// the real scalar, the rows are applied, and the results converted back.
pub open spec fn transform_vector_spec<T: RealCast<R>, R: FreeChannelScalar>(
    vals: Seq<R>,
    v: (T, T, T),
) -> (T, T, T) {
    let x = v.0.to_real_spec();
    let y = v.1.to_real_spec();
    let z = v.2.to_real_spec();
    (
        T::from_real_spec(dot_row_spec(vals, 0, x, y, z)),
        T::from_real_spec(dot_row_spec(vals, 1, x, y, z)),
        T::from_real_spec(dot_row_spec(vals, 2, x, y, z)),
    )
}

/// A 3x3 matrix in row-major order.
#[derive(Clone, Copy, Debug, PartialEq)]
pub struct Matrix3<R> {
    m: [R; 9],
}

impl<R: FreeChannelScalar> Matrix3<R> {
    /// The entries in row-major order.
    pub closed spec fn vals(self) -> Seq<R> {
        self.m@
    }

    pub fn new(values: [R; 9]) -> (r: Self)
        ensures
            r.vals() == values@,
    {
        Matrix3 { m: values }
    }

    /// The entries in row-major order, as an array.
    pub fn as_array(&self) -> (r: [R; 9])
        ensures
            r@ == self.vals(),
    {
        self.m
    }

    /// Apply the matrix to a channel triple.
    pub fn transform_vector<T: RealCast<R>>(&self, v: (T, T, T)) -> (r: (T, T, T))
        ensures
            r == transform_vector_spec(self.vals(), v),
    {
        let x = v.0.to_real();
        let y = v.1.to_real();
        let z = v.2.to_real();
        let r0 = self.m[0].r_mul(x).r_add(self.m[1].r_mul(y)).r_add(self.m[2].r_mul(z));
        let r1 = self.m[3].r_mul(x).r_add(self.m[4].r_mul(y)).r_add(self.m[5].r_mul(z));
        let r2 = self.m[6].r_mul(x).r_add(self.m[7].r_mul(y)).r_add(self.m[8].r_mul(z));
        (T::from_real(r0), T::from_real(r1), T::from_real(r2))
    }

    /// The inverse matrix, computed as the adjugate over the determinant.
    pub fn inverse(&self) -> (r: Matrix3<R>)
        ensures
            r.vals() == inverse_vals_spec(self.vals()),
    {
        let v = self.m;
        let det = v[0].r_mul(v[4].r_mul(v[8]).r_sub(v[5].r_mul(v[7]))).r_sub(
            v[1].r_mul(v[3].r_mul(v[8]).r_sub(v[5].r_mul(v[6]))),
        ).r_add(v[2].r_mul(v[3].r_mul(v[7]).r_sub(v[4].r_mul(v[6]))));
        let r = Matrix3::new(
            [
                v[4].r_mul(v[8]).r_sub(v[5].r_mul(v[7])).r_div(det),
                v[2].r_mul(v[7]).r_sub(v[1].r_mul(v[8])).r_div(det),
                v[1].r_mul(v[5]).r_sub(v[2].r_mul(v[4])).r_div(det),
                v[5].r_mul(v[6]).r_sub(v[3].r_mul(v[8])).r_div(det),
                v[0].r_mul(v[8]).r_sub(v[2].r_mul(v[6])).r_div(det),
                v[2].r_mul(v[3]).r_sub(v[0].r_mul(v[5])).r_div(det),
                v[3].r_mul(v[7]).r_sub(v[4].r_mul(v[6])).r_div(det),
                v[1].r_mul(v[6]).r_sub(v[0].r_mul(v[7])).r_div(det),
                v[0].r_mul(v[4]).r_sub(v[1].r_mul(v[3])).r_div(det),
            ],
        );
        proof {
            assert(v@ == self.vals());
            assert(r.vals() =~= inverse_vals_spec(self.vals()));
        }
        r
    }
}

/// The determinant of a row-major 3x3 entry sequence.
pub open spec fn det3_spec<R: FreeChannelScalar>(v: Seq<R>) -> R {
    v[0].r_mul_spec(v[4].r_mul_spec(v[8]).r_sub_spec(v[5].r_mul_spec(v[7]))).r_sub_spec(
        v[1].r_mul_spec(v[3].r_mul_spec(v[8]).r_sub_spec(v[5].r_mul_spec(v[6]))),
    ).r_add_spec(v[2].r_mul_spec(v[3].r_mul_spec(v[7]).r_sub_spec(v[4].r_mul_spec(v[6]))))
}

/// The inverse of a row-major 3x3 entry sequence: the adjugate divided by
/// the determinant.
pub open spec fn inverse_vals_spec<R: FreeChannelScalar>(v: Seq<R>) -> Seq<R> {
    let det = det3_spec(v);
    seq![
        v[4].r_mul_spec(v[8]).r_sub_spec(v[5].r_mul_spec(v[7])).r_div_spec(det),
        v[2].r_mul_spec(v[7]).r_sub_spec(v[1].r_mul_spec(v[8])).r_div_spec(det),
        v[1].r_mul_spec(v[5]).r_sub_spec(v[2].r_mul_spec(v[4])).r_div_spec(det),
        v[5].r_mul_spec(v[6]).r_sub_spec(v[3].r_mul_spec(v[8])).r_div_spec(det),
        v[0].r_mul_spec(v[8]).r_sub_spec(v[2].r_mul_spec(v[6])).r_div_spec(det),
        v[2].r_mul_spec(v[3]).r_sub_spec(v[0].r_mul_spec(v[5])).r_div_spec(det),
        v[3].r_mul_spec(v[7]).r_sub_spec(v[4].r_mul_spec(v[6])).r_div_spec(det),
        v[1].r_mul_spec(v[6]).r_sub_spec(v[0].r_mul_spec(v[7])).r_div_spec(det),
        v[0].r_mul_spec(v[4]).r_sub_spec(v[1].r_mul_spec(v[3])).r_div_spec(det),
    ]
}

} // verus!
