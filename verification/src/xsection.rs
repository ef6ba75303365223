//! A cross-section: planar shapes that share one normal direction.

use super::geometry::Shape;
use super::mathtraits::{obeys_arithmetic, Math, Polygon};
use super::wectors::Wector;
use std::ops::Neg;
use vstd::prelude::*;
use vstd::std_specs::cmp::PartialEqSpec;
use vstd::std_specs::ops::{AddSpec, NegSpec};

verus! {

/// A set of shapes whose normals all lie along one axis.
pub struct XSection<T> {
    neutral_axis: Wector<T>,
    shapes: Vec<Shape<T>>,
}

impl<T> XSection<T> {
    /// The axis that the shapes' normals lie along.
    pub closed spec fn axis(&self) -> Wector<T> {
        self.neutral_axis
    }

    /// The shapes, in the order in which they were given.
    pub closed spec fn parts(&self) -> Seq<Shape<T>> {
        self.shapes@
    }
}

impl<T: Math<T> + Copy> XSection<T> {
    /// Whether the normal `n` lies along the axis `na`: it equals `na` or the
    /// negation of `na`, under the scalar's own equality.
    pub open spec fn along(n: Wector<T>, na: Wector<T>) -> bool {
        n.eq_spec(&na) || n.eq_spec(&na.neg_spec())
    }

    /// Whether the normal of every shape of `s` lies along `na`.
    pub open spec fn all_along(na: Wector<T>, s: Seq<Shape<T>>) -> bool {
        forall|i: int| 0 <= i < s.len() ==> Self::along((#[trigger] s[i]).normal_spec(), na)
    }

    /// Whether `normals_match` can be computed: the axis can be negated and
    /// the normal of every shape can be computed.
    pub open spec fn normals_match_req(na: Wector<T>, s: Seq<Shape<T>>) -> bool {
        &&& na.neg_req()
        &&& forall|i: int| 0 <= i < s.len() ==> (#[trigger] s[i]).normal_req()
    }

    /// Tests what `new` asks of its arguments: that the normal of every shape
    /// lies along `na`.
    pub fn normals_match(na: &Wector<T>, s: &Vec<Shape<T>>) -> (r: bool)
        requires
            Self::normals_match_req(*na, s@),
        ensures
            T::obeys_eq_spec() && T::obeys_neg_spec() ==> r == Self::all_along(*na, s@),
    {
        let reversed = na.neg();
        let mut i: usize = 0;
        while i < s.len()
            invariant
                i <= s.len(),
                Self::normals_match_req(*na, s@),
                T::obeys_neg_spec() ==> reversed == na.neg_spec(),
                T::obeys_eq_spec() && T::obeys_neg_spec() ==> forall|k: int|
                    0 <= k < i ==> Self::along((#[trigger] s@[k]).normal_spec(), *na),
            decreases s.len() - i,
        {
            let n = s[i].normal();
            if n != *na && n != reversed {
                return false;
            }
            i += 1;
        }
        true
    }

    /// Collects shapes into a cross-section.  The normal of every shape must
    /// lie along `na`.
    pub fn new(na: Wector<T>, s: Vec<Shape<T>>) -> (r: XSection<T>)
        requires
            Self::all_along(na, s@),
        ensures
            r.axis() == na,
            r.parts() == s@,
    {
        XSection { neutral_axis: na, shapes: s }
    }

    /// The areas of `s`, added one after the other to zero.
    pub open spec fn sum_areas(s: Seq<Shape<T>>) -> T
        decreases s.len(),
    {
        if s.len() == 0 {
            T::zero_spec()
        } else {
            Self::sum_areas(s.drop_last()).add_spec(s.last().area_spec())
        }
    }

    /// Whether `sum_areas` can be computed: every area can, and so can
    /// every sum.
    pub open spec fn sum_areas_req(s: Seq<Shape<T>>) -> bool
        decreases s.len(),
    {
        if s.len() == 0 {
            true
        } else {
            &&& Self::sum_areas_req(s.drop_last())
            &&& s.last().area_req()
            &&& Self::sum_areas(s.drop_last()).add_req(s.last().area_spec())
        }
    }

    /// Whether `area` can be computed.
    pub open spec fn area_req(&self) -> bool {
        &&& obeys_arithmetic::<T>()
        &&& Self::sum_areas_req(self.parts())
    }

    /// The total area of the shapes.
    pub fn area(&self) -> (r: T)
        requires
            self.area_req(),
        ensures
            r == Self::sum_areas(self.parts()),
    {
        let mut acc = T::zero();
        let mut i: usize = 0;
        while i < self.shapes.len()
            invariant
                i <= self.shapes.len(),
                obeys_arithmetic::<T>(),
                Self::sum_areas_req(self.shapes@),
                acc == Self::sum_areas(self.shapes@.take(i as int)),
            decreases self.shapes.len() - i,
        {
            proof {
                Self::lemma_sum_areas_req_prefix(self.shapes@, i + 1);
                assert(self.shapes@.take(i + 1).drop_last() == self.shapes@.take(i as int));
            }
            acc = acc + self.shapes[i].area();
            i += 1;
        }
        assert(self.shapes@.take(i as int) == self.shapes@);
        acc
    }

    /// Where the areas of a list can be summed, so can those of each of its
    /// prefixes.
    proof fn lemma_sum_areas_req_prefix(s: Seq<Shape<T>>, n: int)
        requires
            Self::sum_areas_req(s),
            0 <= n <= s.len(),
        ensures
            Self::sum_areas_req(s.take(n)),
        decreases s.len(),
    {
        if n < s.len() {
            Self::lemma_sum_areas_req_prefix(s.drop_last(), n);
            assert(s.drop_last().take(n) == s.take(n));
        } else {
            assert(s.take(n) == s);
        }
    }
}

} // verus!
