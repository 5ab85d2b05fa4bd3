use vstd::prelude::*;
use vstd::math::abs;
use std::ops::{Add, Sub};
use vstd::std_specs::cmp::PartialEqSpec;
use vstd::std_specs::ops::{AddSpec, MulSpec};
use crate::close::{ints_of_i32, within};
use crate::point::{can_add, can_scale, can_sub, scale_seq, sum_seq, Point};

verus! {

/// Adding two points of equal dimension gives the same coordinates in either order.
pub proof fn lemma_add_commutes(p: Point<i32>, q: Point<i32>)
    requires
        p@.len() == q@.len(),
    ensures
        sum_seq(p@, q@) == sum_seq(q@, p@),
{
    assert(sum_seq(p@, q@) =~= sum_seq(q@, p@));
}

/// Adding to a point a point of default coordinates (zeros) of the same
/// dimension, as `new` makes it, gives back the first point.
pub proof fn lemma_add_default_identity(p: Point<i32>, z: Point<i32>)
    requires
        z@.len() == p@.len(),
        forall|i: int| 0 <= i < z@.len() ==> call_ensures(i32::default, (), #[trigger] z@[i]),
    ensures
        can_add(p@, z@),
        sum_seq(p@, z@) == p@,
{
    assert forall|i: int| 0 <= i < z@.len() implies z@[i] == 0i32 by {
        assert(call_ensures(i32::default, (), z@[i]));
    }
    assert(sum_seq(p@, z@) =~= p@);
}

/// Points of different dimensions can be neither added nor subtracted, and
/// they are not equal.
pub proof fn lemma_dimension_mismatch<T: Add<Output = T> + Sub<Output = T> + PartialEq>(
    p: Point<T>,
    q: Point<T>,
)
    requires
        p@.len() != q@.len(),
    ensures
        !can_add(p@, q@),
        !can_sub(p@, q@),
        !p.eq_spec(&q),
{
}

/// Points of different dimensions are never close, whatever the tolerance.
pub proof fn lemma_mismatch_not_close(p: Point<i32>, q: Point<i32>, eps: int)
    requires
        p@.len() != q@.len(),
    ensures
        !within(ints_of_i32(p@), ints_of_i32(q@), eps),
{
}

/// Multiplying a sum of points by a scalar gives the sum of the multiplied
/// points, when none of the operations overflows.
pub proof fn lemma_scale_distributes(p: Point<i32>, q: Point<i32>, s: i32)
    requires
        can_add(p@, q@),
        can_scale(sum_seq(p@, q@), s),
        can_scale(p@, s),
        can_scale(q@, s),
        can_add(scale_seq(p@, s), scale_seq(q@, s)),
    ensures
        scale_seq(sum_seq(p@, q@), s) == sum_seq(scale_seq(p@, s), scale_seq(q@, s)),
{
    let lhs = scale_seq(sum_seq(p@, q@), s);
    let rhs = sum_seq(scale_seq(p@, s), scale_seq(q@, s));
    assert forall|i: int| 0 <= i < lhs.len() implies lhs[i] == rhs[i] by {
        let a = p@[i] as int;
        let b = q@[i] as int;
        assert(sum_seq(p@, q@)[i].mul_req(s));
        assert(p@[i].mul_req(s));
        assert(q@[i].mul_req(s));
        assert(scale_seq(p@, s)[i].add_req(scale_seq(q@, s)[i]));
        assert(p@[i].add_req(q@[i]));
        assert(sum_seq(p@, q@)[i] as int == a + b);
        assert((a + b) * s == a * s + b * s) by (nonlinear_arith);
        assert(lhs[i] as int == (a + b) * s);
        assert(scale_seq(p@, s)[i] as int == a * s);
        assert(scale_seq(q@, s)[i] as int == b * s);
        assert(rhs[i] as int == a * s + b * s);
    }
    assert(lhs =~= rhs);
}

/// A point is close to itself with tolerance zero.
pub proof fn lemma_close_to_itself(p: Point<i32>)
    ensures
        within(ints_of_i32(p@), ints_of_i32(p@), 0),
{
    let a = ints_of_i32(p@);
    assert forall|i: int| 0 <= i < a.len() implies #[trigger] abs(a[i] - a[i]) <= 0 by {}
}

/// Raising the tolerance keeps close points close.
pub proof fn lemma_close_monotone(a: Seq<int>, b: Seq<int>, eps: int, wider: int)
    requires
        within(a, b, eps),
        eps <= wider,
    ensures
        within(a, b, wider),
{
}

} // verus!
