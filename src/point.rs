use vstd::prelude::*;
use std::ops::{Add, Div, Mul, Sub};
use vstd::std_specs::ops::{
    AddSpec, AddSpecImpl, DivSpec, DivSpecImpl, MulSpec, MulSpecImpl, SubSpec, SubSpecImpl,
};
use vstd::std_specs::cmp::{PartialEqSpec, PartialEqSpecImpl};

verus! {

/// A point in an n-dimensional space whose coordinates have type `T`.
///
/// Dimensions are numbered from 1 in `get_value` and `set_value`.
pub struct Point<T> {
    values: Vec<T>,
    dim: usize,
}

impl<T> View for Point<T> {
    type V = Seq<T>;

    /// The coordinates of the point, in order.
    closed spec fn view(&self) -> Seq<T> {
        self.values@
    }
}

/// The coordinate-wise sums of two sequences of equal length.
pub open spec fn sum_seq<T: Add<Output = T>>(a: Seq<T>, b: Seq<T>) -> Seq<T> {
    Seq::new(a.len(), |i: int| a[i].add_spec(b[i]))
}

/// The coordinate-wise differences of two sequences of equal length.
pub open spec fn diff_seq<T: Sub<Output = T>>(a: Seq<T>, b: Seq<T>) -> Seq<T> {
    Seq::new(a.len(), |i: int| a[i].sub_spec(b[i]))
}

/// Every coordinate multiplied by `s`.
pub open spec fn scale_seq<T: Mul<S, Output = T>, S>(a: Seq<T>, s: S) -> Seq<T> {
    Seq::new(a.len(), |i: int| a[i].mul_spec(s))
}

/// Every coordinate divided by `s`.
pub open spec fn shrink_seq<T: Div<S, Output = T>, S>(a: Seq<T>, s: S) -> Seq<T> {
    Seq::new(a.len(), |i: int| a[i].div_spec(s))
}

/// Both sequences have the same length and each pair of coordinates can be added.
pub open spec fn can_add<T: Add<Output = T>>(a: Seq<T>, b: Seq<T>) -> bool {
    &&& a.len() == b.len()
    &&& forall|i: int| 0 <= i < a.len() ==> #[trigger] a[i].add_req(b[i])
}

/// Both sequences have the same length and each pair of coordinates can be subtracted.
pub open spec fn can_sub<T: Sub<Output = T>>(a: Seq<T>, b: Seq<T>) -> bool {
    &&& a.len() == b.len()
    &&& forall|i: int| 0 <= i < a.len() ==> #[trigger] a[i].sub_req(b[i])
}

/// Each coordinate can be multiplied by `s`.
pub open spec fn can_scale<T: Mul<S, Output = T>, S>(a: Seq<T>, s: S) -> bool {
    forall|i: int| 0 <= i < a.len() ==> #[trigger] a[i].mul_req(s)
}

/// Each coordinate can be divided by `s`.
pub open spec fn can_shrink<T: Div<S, Output = T>, S>(a: Seq<T>, s: S) -> bool {
    forall|i: int| 0 <= i < a.len() ==> #[trigger] a[i].div_req(s)
}

impl<T> Point<T> {
    /// The cached dimension always equals the number of coordinates.
    #[verifier::type_invariant]
    spec fn well_formed(self) -> bool {
        self.dim == self.values.len()
    }
}

impl<T: Copy + Default> Point<T> {
    /// Creates a point of `dimension` coordinates, each of them `T::default()`.
    pub fn new(dimension: usize) -> (p: Point<T>)
        ensures
            p@.len() == dimension,
            forall|i: int| 0 <= i < dimension ==> call_ensures(T::default, (), #[trigger] p@[i]),
    {
        let zero = T::default();
        let mut values: Vec<T> = Vec::new();
        let mut k: usize = 0;
        while k < dimension
            invariant
                k <= dimension,
                values@.len() == k,
                call_ensures(T::default, (), zero),
                forall|i: int| 0 <= i < k ==> values@[i] == zero,
            decreases dimension - k,
        {
            values.push(zero);
            k = k + 1;
        }
        Point { values, dim: dimension }
    }
}

impl<T: Copy> Point<T> {
    /// Creates a point whose coordinates are a copy of `values_vec`, in order.
    pub fn new_from_vec(values_vec: &Vec<T>) -> (p: Point<T>)
        ensures
            p@ == values_vec@,
    {
        let mut values: Vec<T> = Vec::new();
        let mut k: usize = 0;
        while k < values_vec.len()
            invariant
                k <= values_vec@.len(),
                values@ == values_vec@.subrange(0, k as int),
            decreases values_vec@.len() - k,
        {
            values.push(values_vec[k]);
            k = k + 1;
        }
        assert(values@ == values_vec@);
        Point { values, dim: values_vec.len() }
    }

    /// The coordinates of the point, without copying them.
    pub fn get_vector(&self) -> (v: &Vec<T>)
        ensures
            v@ == self@,
    {
        &self.values
    }

    /// The number of dimensions of the point.
    pub fn get_size(&self) -> (n: usize)
        ensures
            n == self@.len(),
    {
        proof {
            use_type_invariant(self);
        }
        self.dim
    }

    /// Whether `dim` names one of the point's dimensions, counting from 1.
    pub fn check_valid_dim(&self, dim: usize) -> (valid: bool)
        ensures
            valid == (1 <= dim && dim <= self@.len()),
    {
        proof {
            use_type_invariant(self);
        }
        1 <= dim && dim <= self.dim
    }

    /// The coordinate in dimension `dim_index`, counting from 1.
    pub fn get_value(&self, dim_index: usize) -> (v: &T)
        requires
            1 <= dim_index <= self@.len(),
        ensures
            *v == self@[dim_index - 1],
    {
        &self.values[dim_index - 1]
    }

    /// Replaces the coordinate in dimension `dim`, counting from 1, by `new_val`.
    pub fn set_value(&mut self, dim: usize, new_val: &T)
        requires
            1 <= dim <= old(self)@.len(),
        ensures
            final(self)@ == old(self)@.update(dim - 1, *new_val),
    {
        let mut taken = Point { values: Vec::new(), dim: 0 };
        std::mem::swap(self, &mut taken);
        proof {
            use_type_invariant(&taken);
        }
        let Point { mut values, dim: n } = taken;
        values.set(dim - 1, *new_val);
        *self = Point { values, dim: n };
    }

    /// Applies `f` to each pair of coordinates of the same dimension, in order,
    /// and returns the results.
    pub fn apply_func<S, F: Fn(&T, &T) -> S>(&self, other: &Point<T>, f: &F) -> (r: Vec<S>)
        requires
            self@.len() == other@.len(),
            forall|i: int| 0 <= i < self@.len() ==> f.requires((&self@[i], &other@[i])),
        ensures
            r@.len() == self@.len(),
            forall|i: int| 0 <= i < self@.len() ==> f.ensures((&self@[i], &other@[i]), #[trigger] r@[i]),
    {
        let mut out: Vec<S> = Vec::new();
        let n = self.values.len();
        let mut k: usize = 0;
        while k < n
            invariant
                n == self@.len(),
                self@.len() == other@.len(),
                forall|i: int| 0 <= i < self@.len() ==> f.requires((&self@[i], &other@[i])),
                k <= n,
                out@.len() == k,
                forall|i: int| 0 <= i < k ==> f.ensures((&self@[i], &other@[i]), #[trigger] out@[i]),
            decreases n - k,
        {
            let x = f(&self.values[k], &other.values[k]);
            out.push(x);
            k = k + 1;
        }
        out
    }
}

impl<T: Copy> Clone for Point<T> {
    /// A point with the same coordinates and its own storage.
    fn clone(&self) -> (p: Self)
        ensures
            p@ == self@,
    {
        Point::new_from_vec(&self.values)
    }
}

impl<T: Copy + Add<Output = T>> Add for &Point<T> {
    type Output = Point<T>;

    /// Adds the coordinates of the same dimension.
    fn add(self, other: Self) -> (r: Point<T>)
        ensures
            r@.len() == self@.len(),
            T::obeys_add_spec() ==> r@ == sum_seq(self@, other@),
    {
        let n = self.values.len();
        let mut out: Vec<T> = Vec::new();
        let mut k: usize = 0;
        while k < n
            invariant
                n == self@.len(),
                can_add(self@, other@),
                k <= n,
                out@.len() == k,
                T::obeys_add_spec() ==> forall|i: int|
                    0 <= i < k ==> out@[i] == #[trigger] self@[i].add_spec(other@[i]),
            decreases n - k,
        {
            let a = self.values[k];
            let b = other.values[k];
            proof {
                assert(self@[k as int].add_req(other@[k as int]));
            }
            out.push(a.add(b));
            k = k + 1;
        }
        proof {
            if T::obeys_add_spec() {
                assert(out@ =~= sum_seq(self@, other@));
            }
        }
        Point { values: out, dim: n }
    }
}

impl<T: Copy + Add<Output = T>> AddSpecImpl for &Point<T> {
    /// What `+` returns is stated by the `ensures` of `add`.
    open spec fn obeys_add_spec() -> bool {
        false
    }

    /// The dimensions agree and no pair of coordinates fails to add.
    open spec fn add_req(self, rhs: &Point<T>) -> bool {
        can_add(self@, rhs@)
    }

    open spec fn add_spec(self, rhs: &Point<T>) -> Point<T> {
        choose|p: Point<T>| p@ == sum_seq(self@, rhs@)
    }
}

impl<T: Copy + Add<Output = T>> Add for Point<T> {
    type Output = Point<T>;

    /// Adds the coordinates of the same dimension.
    fn add(self, other: Self) -> (r: Point<T>)
        ensures
            r@.len() == self@.len(),
            T::obeys_add_spec() ==> r@ == sum_seq(self@, other@),
    {
        (&self).add(&other)
    }
}

impl<T: Copy + Add<Output = T>> AddSpecImpl for Point<T> {
    /// What `+` returns is stated by the `ensures` of `add`.
    open spec fn obeys_add_spec() -> bool {
        false
    }

    /// The dimensions agree and no pair of coordinates fails to add.
    open spec fn add_req(self, rhs: Point<T>) -> bool {
        can_add(self@, rhs@)
    }

    open spec fn add_spec(self, rhs: Point<T>) -> Point<T> {
        choose|p: Point<T>| p@ == sum_seq(self@, rhs@)
    }
}

impl<T: Copy + Sub<Output = T>> Sub for &Point<T> {
    type Output = Point<T>;

    /// Subtracts the coordinates of `other` from those of the same dimension.
    fn sub(self, other: Self) -> (r: Point<T>)
        ensures
            r@.len() == self@.len(),
            T::obeys_sub_spec() ==> r@ == diff_seq(self@, other@),
    {
        let n = self.values.len();
        let mut out: Vec<T> = Vec::new();
        let mut k: usize = 0;
        while k < n
            invariant
                n == self@.len(),
                can_sub(self@, other@),
                k <= n,
                out@.len() == k,
                T::obeys_sub_spec() ==> forall|i: int|
                    0 <= i < k ==> out@[i] == #[trigger] self@[i].sub_spec(other@[i]),
            decreases n - k,
        {
            let a = self.values[k];
            let b = other.values[k];
            proof {
                assert(self@[k as int].sub_req(other@[k as int]));
            }
            out.push(a.sub(b));
            k = k + 1;
        }
        proof {
            if T::obeys_sub_spec() {
                assert(out@ =~= diff_seq(self@, other@));
            }
        }
        Point { values: out, dim: n }
    }
}

impl<T: Copy + Sub<Output = T>> SubSpecImpl for &Point<T> {
    /// What `-` returns is stated by the `ensures` of `sub`.
    open spec fn obeys_sub_spec() -> bool {
        false
    }

    /// The dimensions agree and no pair of coordinates fails to subtract.
    open spec fn sub_req(self, rhs: &Point<T>) -> bool {
        can_sub(self@, rhs@)
    }

    open spec fn sub_spec(self, rhs: &Point<T>) -> Point<T> {
        choose|p: Point<T>| p@ == diff_seq(self@, rhs@)
    }
}

impl<T: Copy + Sub<Output = T>> Sub for Point<T> {
    type Output = Point<T>;

    /// Subtracts the coordinates of `other` from those of the same dimension.
    fn sub(self, other: Self) -> (r: Point<T>)
        ensures
            r@.len() == self@.len(),
            T::obeys_sub_spec() ==> r@ == diff_seq(self@, other@),
    {
        (&self).sub(&other)
    }
}

impl<T: Copy + Sub<Output = T>> SubSpecImpl for Point<T> {
    /// What `-` returns is stated by the `ensures` of `sub`.
    open spec fn obeys_sub_spec() -> bool {
        false
    }

    /// The dimensions agree and no pair of coordinates fails to subtract.
    open spec fn sub_req(self, rhs: Point<T>) -> bool {
        can_sub(self@, rhs@)
    }

    open spec fn sub_spec(self, rhs: Point<T>) -> Point<T> {
        choose|p: Point<T>| p@ == diff_seq(self@, rhs@)
    }
}

impl<T: Copy + Mul<S, Output = T>, S: Copy> Mul<&S> for &Point<T> {
    type Output = Point<T>;

    /// Multiplies every coordinate by `scalar`.
    fn mul(self, scalar: &S) -> (r: Point<T>)
        ensures
            r@.len() == self@.len(),
            T::obeys_mul_spec() ==> r@ == scale_seq(self@, *scalar),
    {
        let s = *scalar;
        let n = self.values.len();
        let mut out: Vec<T> = Vec::new();
        let mut k: usize = 0;
        while k < n
            invariant
                n == self@.len(),
                can_scale(self@, s),
                k <= n,
                out@.len() == k,
                T::obeys_mul_spec() ==> forall|i: int|
                    0 <= i < k ==> out@[i] == #[trigger] self@[i].mul_spec(s),
            decreases n - k,
        {
            let a = self.values[k];
            proof {
                assert(self@[k as int].mul_req(s));
            }
            out.push(a.mul(s));
            k = k + 1;
        }
        proof {
            if T::obeys_mul_spec() {
                assert(out@ =~= scale_seq(self@, s));
            }
        }
        Point { values: out, dim: n }
    }
}

impl<T: Copy + Mul<S, Output = T>, S: Copy> MulSpecImpl<&S> for &Point<T> {
    /// What `*` returns is stated by the `ensures` of `mul`.
    open spec fn obeys_mul_spec() -> bool {
        false
    }

    /// No coordinate fails to multiply by the scalar.
    open spec fn mul_req(self, rhs: &S) -> bool {
        can_scale(self@, *rhs)
    }

    open spec fn mul_spec(self, rhs: &S) -> Point<T> {
        choose|p: Point<T>| p@ == scale_seq(self@, *rhs)
    }
}

impl<T: Copy + Mul<S, Output = T>, S: Copy> Mul<S> for Point<T> {
    type Output = Point<T>;

    /// Multiplies every coordinate by `scalar`.
    fn mul(self, scalar: S) -> (r: Point<T>)
        ensures
            r@.len() == self@.len(),
            T::obeys_mul_spec() ==> r@ == scale_seq(self@, scalar),
    {
        (&self).mul(&scalar)
    }
}

impl<T: Copy + Mul<S, Output = T>, S: Copy> MulSpecImpl<S> for Point<T> {
    /// What `*` returns is stated by the `ensures` of `mul`.
    open spec fn obeys_mul_spec() -> bool {
        false
    }

    /// No coordinate fails to multiply by the scalar.
    open spec fn mul_req(self, rhs: S) -> bool {
        can_scale(self@, rhs)
    }

    open spec fn mul_spec(self, rhs: S) -> Point<T> {
        choose|p: Point<T>| p@ == scale_seq(self@, rhs)
    }
}

impl<T: Copy + Div<S, Output = T>, S: Copy> Div<&S> for &Point<T> {
    type Output = Point<T>;

    /// Divides every coordinate by `scalar`.
    fn div(self, scalar: &S) -> (r: Point<T>)
        ensures
            r@.len() == self@.len(),
            T::obeys_div_spec() ==> r@ == shrink_seq(self@, *scalar),
    {
        let s = *scalar;
        let n = self.values.len();
        let mut out: Vec<T> = Vec::new();
        let mut k: usize = 0;
        while k < n
            invariant
                n == self@.len(),
                can_shrink(self@, s),
                k <= n,
                out@.len() == k,
                T::obeys_div_spec() ==> forall|i: int|
                    0 <= i < k ==> out@[i] == #[trigger] self@[i].div_spec(s),
            decreases n - k,
        {
            let a = self.values[k];
            proof {
                assert(self@[k as int].div_req(s));
            }
            out.push(a.div(s));
            k = k + 1;
        }
        proof {
            if T::obeys_div_spec() {
                assert(out@ =~= shrink_seq(self@, s));
            }
        }
        Point { values: out, dim: n }
    }
}

impl<T: Copy + Div<S, Output = T>, S: Copy> DivSpecImpl<&S> for &Point<T> {
    /// What `/` returns is stated by the `ensures` of `div`.
    open spec fn obeys_div_spec() -> bool {
        false
    }

    /// No coordinate fails to divide by the scalar (for integers: the scalar is not zero).
    open spec fn div_req(self, rhs: &S) -> bool {
        can_shrink(self@, *rhs)
    }

    open spec fn div_spec(self, rhs: &S) -> Point<T> {
        choose|p: Point<T>| p@ == shrink_seq(self@, *rhs)
    }
}

impl<T: Copy + Div<S, Output = T>, S: Copy> Div<S> for Point<T> {
    type Output = Point<T>;

    /// Divides every coordinate by `scalar`.
    fn div(self, scalar: S) -> (r: Point<T>)
        ensures
            r@.len() == self@.len(),
            T::obeys_div_spec() ==> r@ == shrink_seq(self@, scalar),
    {
        (&self).div(&scalar)
    }
}

impl<T: Copy + Div<S, Output = T>, S: Copy> DivSpecImpl<S> for Point<T> {
    /// What `/` returns is stated by the `ensures` of `div`.
    open spec fn obeys_div_spec() -> bool {
        false
    }

    /// No coordinate fails to divide by the scalar (for integers: the scalar is not zero).
    open spec fn div_req(self, rhs: S) -> bool {
        can_shrink(self@, rhs)
    }

    open spec fn div_spec(self, rhs: S) -> Point<T> {
        choose|p: Point<T>| p@ == shrink_seq(self@, rhs)
    }
}

impl<T: PartialEq> PartialEq for Point<T> {
    /// Equal dimensions, and equal coordinates in each of them.
    fn eq(&self, other: &Self) -> (r: bool) {
        if self.values.len() != other.values.len() {
            return false;
        }
        let n = self.values.len();
        let mut k: usize = 0;
        while k < n
            invariant
                n == self@.len(),
                n == other@.len(),
                k <= n,
                <T as PartialEqSpec>::obeys_eq_spec() ==> forall|i: int|
                    0 <= i < k ==> #[trigger] self@[i].eq_spec(&other@[i]),
            decreases n - k,
        {
            if !(self.values[k] == other.values[k]) {
                return false;
            }
            k = k + 1;
        }
        true
    }
}

impl<T: PartialEq> PartialEqSpecImpl for Point<T> {
    open spec fn obeys_eq_spec() -> bool {
        <T as PartialEqSpec>::obeys_eq_spec()
    }

    /// Equal dimensions, and equal coordinates in each of them.
    open spec fn eq_spec(&self, other: &Point<T>) -> bool {
        &&& self@.len() == other@.len()
        &&& forall|i: int| 0 <= i < self@.len() ==> #[trigger] self@[i].eq_spec(&other@[i])
    }
}

} // verus!
