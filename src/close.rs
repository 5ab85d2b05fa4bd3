use vstd::prelude::*;
use vstd::math::abs;
use crate::point::Point;

verus! {

/// The coordinates widened to mathematical integers.
pub open spec fn ints_of_i32(s: Seq<i32>) -> Seq<int> {
    s.map_values(|x: i32| x as int)
}

/// The coordinates widened to mathematical integers.
pub open spec fn ints_of_i64(s: Seq<i64>) -> Seq<int> {
    s.map_values(|x: i64| x as int)
}

/// Two points are within `eps` of each other: equal dimensions, and in each
/// dimension the coordinates differ by at most `eps`.
pub open spec fn within(a: Seq<int>, b: Seq<int>, eps: int) -> bool {
    &&& a.len() == b.len()
    &&& forall|i: int| 0 <= i < a.len() ==> #[trigger] abs(a[i] - b[i]) <= eps
}

/// Relies on num's `Signed::abs` for `i64`: `-x` for a negative `x`, else `x`.
/// It overflows on `i64::MIN` only.
#[verifier::external_body]
fn magnitude_i64(x: i64) -> (r: i64)
    requires
        x != i64::MIN,
    ensures
        r as int == abs(x as int),
{
    num::traits::Signed::abs(&x)
}

/// Relies on num's `Signed::abs` for `i128`: `-x` for a negative `x`, else `x`.
/// It overflows on `i128::MIN` only.
#[verifier::external_body]
fn magnitude_i128(x: i128) -> (r: i128)
    requires
        x != i128::MIN,
    ensures
        r as int == abs(x as int),
{
    num::traits::Signed::abs(&x)
}

impl Point<i32> {
    /// Whether the points have the same dimension and, in each dimension,
    /// coordinates at most `eps` apart.
    pub fn close(&self, other: &Self, eps: i32) -> (r: bool)
        ensures
            r == within(ints_of_i32(self@), ints_of_i32(other@), eps as int),
    {
        if self.get_size() != other.get_size() {
            return false;
        }
        let a = self.get_vector();
        let b = other.get_vector();
        let n = a.len();
        let mut k: usize = 0;
        while k < n
            invariant
                a@ == self@,
                b@ == other@,
                n == a@.len(),
                n == b@.len(),
                k <= n,
                forall|i: int| 0 <= i < k ==> #[trigger] abs(a@[i] - b@[i]) <= eps,
            decreases n - k,
        {
            let d = magnitude_i64(a[k] as i64 - b[k] as i64);
            if d > eps as i64 {
                proof {
                    assert(abs(ints_of_i32(self@)[k as int] - ints_of_i32(other@)[k as int]) > eps);
                }
                return false;
            }
            k = k + 1;
        }
        true
    }
}

impl Point<i64> {
    /// Whether the points have the same dimension and, in each dimension,
    /// coordinates at most `eps` apart.
    pub fn close(&self, other: &Self, eps: i64) -> (r: bool)
        ensures
            r == within(ints_of_i64(self@), ints_of_i64(other@), eps as int),
    {
        if self.get_size() != other.get_size() {
            return false;
        }
        let a = self.get_vector();
        let b = other.get_vector();
        let n = a.len();
        let mut k: usize = 0;
        while k < n
            invariant
                a@ == self@,
                b@ == other@,
                n == a@.len(),
                n == b@.len(),
                k <= n,
                forall|i: int| 0 <= i < k ==> #[trigger] abs(a@[i] - b@[i]) <= eps,
            decreases n - k,
        {
            let d = magnitude_i128(a[k] as i128 - b[k] as i128);
            if d > eps as i128 {
                proof {
                    assert(abs(ints_of_i64(self@)[k as int] - ints_of_i64(other@)[k as int]) > eps);
                }
                return false;
            }
            k = k + 1;
        }
        true
    }
}

} // verus!
