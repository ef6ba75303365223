//! Points and vectors in three dimensions, and the coordinate systems that
//! their components can be read in.

use super::mathtraits::{
    mul_commutes,
    obeys_arithmetic,
    Arithmetic,
    Components,
    Math,
    PointConstruction,
    SquareRoot,
    Trigonometry,
    Zero,
};
use std::cmp::Ordering;
use std::ops::{Add, Div, Neg, Sub};
use vstd::prelude::*;
use vstd::std_specs::cmp::{OrdSpec, PartialEqSpec};
use vstd::std_specs::ops::{AddSpec, DivSpec, MulSpec, NegSpec, SubSpec};

verus! {

/// Lexicographic combination of three component orderings: the first that is
/// not `Equal` decides.
pub open spec fn lexicographic(first: Ordering, second: Ordering, third: Ordering) -> Ordering {
    match first {
        Ordering::Equal => match second {
            Ordering::Equal => third,
            _ => second,
        },
        _ => first,
    }
}

/// A position in space.
#[derive(Copy, Debug, Ord)]
pub struct Point<T> {
    pub x: T,
    pub y: T,
    pub z: T,
}

impl<T: Copy> Clone for Point<T> {
    fn clone(&self) -> (r: Point<T>)
        ensures
            r == *self,
    {
        *self
    }
}

impl<T> Point<T> {
    pub fn new(a: T, b: T, c: T) -> (r: Point<T>)
        ensures
            r == (Point { x: a, y: b, z: c }),
    {
        Point { x: a, y: b, z: c }
    }

    /// Replaces one component: the first where `var` is 1, the second where it
    /// is 2, the third for every other `var`.
    pub fn setvar(&mut self, var: usize, val: T)
        ensures
            var == 1 ==> *final(self) == (Point { x: val, ..*old(self) }),
            var == 2 ==> *final(self) == (Point { y: val, ..*old(self) }),
            var != 1 && var != 2 ==> *final(self) == (Point { z: val, ..*old(self) }),
    {
        match var {
            1 => self.x = val,
            2 => self.y = val,
            _ => self.z = val,
        }
    }
}

impl<T: Zero<Out = T>> Zero for Point<T> {
    type Out = Point<T>;

    open spec fn zero_spec() -> Point<T> {
        Point { x: T::zero_spec(), y: T::zero_spec(), z: T::zero_spec() }
    }

    fn zero() -> (r: Point<T>) {
        Point::new(T::zero(), T::zero(), T::zero())
    }
}

impl<T: Copy> PointConstruction<T> for Point<T> {
    type Out = Point<T>;

    open spec fn from_triple_spec(a: T, b: T, c: T) -> Point<T> {
        Point { x: a, y: b, z: c }
    }

    fn from_triple(a: T, b: T, c: T) -> (r: Point<T>) {
        Point::new(a, b, c)
    }
}

impl<T: Copy> Components for Point<T> {
    type Out = T;

    open spec fn x_spec(&self) -> T {
        self.x
    }

    open spec fn y_spec(&self) -> T {
        self.y
    }

    open spec fn z_spec(&self) -> T {
        self.z
    }

    fn x(&self) -> (r: T) {
        self.x
    }

    fn y(&self) -> (r: T) {
        self.y
    }

    fn z(&self) -> (r: T) {
        self.z
    }
}

impl<T: Add<Output = T> + Copy> vstd::std_specs::ops::AddSpecImpl for Point<T> {
    open spec fn obeys_add_spec() -> bool {
        T::obeys_add_spec()
    }

    open spec fn add_req(self, other: Point<T>) -> bool {
        &&& self.x.add_req(other.x)
        &&& self.y.add_req(other.y)
        &&& self.z.add_req(other.z)
    }

    open spec fn add_spec(self, other: Point<T>) -> Point<T> {
        Point {
            x: self.x.add_spec(other.x),
            y: self.y.add_spec(other.y),
            z: self.z.add_spec(other.z),
        }
    }
}

impl<T: Add<Output = T> + Copy> Add for Point<T> {
    type Output = Point<T>;

    /// Adds component by component; `add_spec` names the result.
    fn add(self, other: Point<T>) -> (r: Point<T>) {
        Point { x: self.x + other.x, y: self.y + other.y, z: self.z + other.z }
    }
}

impl<T: Sub<Output = T> + Copy> vstd::std_specs::ops::SubSpecImpl for Point<T> {
    open spec fn obeys_sub_spec() -> bool {
        T::obeys_sub_spec()
    }

    open spec fn sub_req(self, other: Point<T>) -> bool {
        &&& self.x.sub_req(other.x)
        &&& self.y.sub_req(other.y)
        &&& self.z.sub_req(other.z)
    }

    open spec fn sub_spec(self, other: Point<T>) -> Point<T> {
        Point {
            x: self.x.sub_spec(other.x),
            y: self.y.sub_spec(other.y),
            z: self.z.sub_spec(other.z),
        }
    }
}

impl<T: Sub<Output = T> + Copy> Sub for Point<T> {
    type Output = Point<T>;

    /// Subtracts component by component; `sub_spec` names the result.
    fn sub(self, other: Point<T>) -> (r: Point<T>) {
        Point { x: self.x - other.x, y: self.y - other.y, z: self.z - other.z }
    }
}

impl<T: Neg<Output = T> + Copy> vstd::std_specs::ops::NegSpecImpl for Point<T> {
    open spec fn obeys_neg_spec() -> bool {
        T::obeys_neg_spec()
    }

    open spec fn neg_req(self) -> bool {
        &&& self.x.neg_req()
        &&& self.y.neg_req()
        &&& self.z.neg_req()
    }

    open spec fn neg_spec(self) -> Point<T> {
        Point { x: self.x.neg_spec(), y: self.y.neg_spec(), z: self.z.neg_spec() }
    }
}

impl<T: Neg<Output = T> + Copy> Neg for Point<T> {
    type Output = Point<T>;

    /// Negates every component; `neg_spec` names the result.
    fn neg(self) -> (r: Point<T>) {
        Point { x: self.x.neg(), y: self.y.neg(), z: self.z.neg() }
    }
}

impl<T: Div<Output = T> + Copy> Point<T> {
    /// Whether every component may be divided by `other`.
    pub open spec fn div_by_req(&self, other: T) -> bool {
        &&& self.x.div_req(other)
        &&& self.y.div_req(other)
        &&& self.z.div_req(other)
    }

    /// The point with every component divided by `other`.
    pub open spec fn div_by_spec(&self, other: T) -> Point<T> {
        Point {
            x: self.x.div_spec(other),
            y: self.y.div_spec(other),
            z: self.z.div_spec(other),
        }
    }

    pub fn div_by(&self, other: &T) -> (r: Point<T>)
        requires
            self.div_by_req(*other),
        ensures
            T::obeys_div_spec() ==> r == self.div_by_spec(*other),
    {
        Point { x: self.x / *other, y: self.y / *other, z: self.z / *other }
    }
}

impl<T: PartialEq> vstd::std_specs::cmp::PartialEqSpecImpl for Point<T> {
    open spec fn obeys_eq_spec() -> bool {
        T::obeys_eq_spec()
    }

    open spec fn eq_spec(&self, other: &Point<T>) -> bool {
        &&& self.x.eq_spec(&other.x)
        &&& self.y.eq_spec(&other.y)
        &&& self.z.eq_spec(&other.z)
    }
}

impl<T: PartialEq> PartialEq for Point<T> {
    /// Compares component by component, with the scalar's own equality;
    /// `eq_spec` names the result.
    fn eq(&self, other: &Point<T>) -> (r: bool) {
        self.x.eq(&other.x) && self.y.eq(&other.y) && self.z.eq(&other.z)
    }
}

impl<T: Eq> Eq for Point<T> {

}

impl<T: Ord> Point<T> {
    /// The ordering that `comp` returns: lexicographic on the components.
    pub open spec fn comp_spec(&self, other: &Point<T>) -> Ordering {
        lexicographic(
            self.x.cmp_spec(&other.x),
            self.y.cmp_spec(&other.y),
            self.z.cmp_spec(&other.z),
        )
    }

    /// Compares two points component by component, the first component first.
    pub fn comp(&self, other: &Point<T>) -> (r: Ordering)
        ensures
            T::obeys_cmp_spec() ==> r == self.comp_spec(other),
    {
        let xord = self.x.cmp(&other.x);
        let yord = self.y.cmp(&other.y);
        let zord = self.z.cmp(&other.z);
        match xord {
            Ordering::Less => Ordering::Less,
            Ordering::Equal => match yord {
                Ordering::Less => Ordering::Less,
                Ordering::Equal => zord,
                Ordering::Greater => Ordering::Greater,
            },
            Ordering::Greater => Ordering::Greater,
        }
    }
}

impl<T: Ord> vstd::std_specs::cmp::PartialOrdSpecImpl for Point<T> {
    open spec fn obeys_partial_cmp_spec() -> bool {
        T::obeys_cmp_spec()
    }

    open spec fn partial_cmp_spec(&self, other: &Point<T>) -> Option<Ordering> {
        Some(self.comp_spec(other))
    }
}

impl<T: Ord> PartialOrd for Point<T> {
    /// Orders lexicographically; `partial_cmp_spec` names the result.
    fn partial_cmp(&self, other: &Point<T>) -> (r: Option<Ordering>) {
        Some(self.comp(other))
    }
}

/// A displacement or direction in space.
#[derive(Copy, Debug, Ord)]
pub struct Wector<T> {
    pub x: T,
    pub y: T,
    pub z: T,
}

impl<T: Copy> Clone for Wector<T> {
    fn clone(&self) -> (r: Wector<T>)
        ensures
            r == *self,
    {
        *self
    }
}

impl<T: Copy> PointConstruction<T> for Wector<T> {
    type Out = Wector<T>;

    open spec fn from_triple_spec(a: T, b: T, c: T) -> Wector<T> {
        Wector { x: a, y: b, z: c }
    }

    fn from_triple(a: T, b: T, c: T) -> (r: Wector<T>) {
        Wector::new(a, b, c)
    }
}

impl<T: Copy> Wector<T> {
    pub fn new(a: T, b: T, c: T) -> (r: Wector<T>)
        ensures
            r == (Wector { x: a, y: b, z: c }),
    {
        Wector { x: a, y: b, z: c }
    }

    /// The vector with the components of `p`.
    pub open spec fn from_point_spec(p: Point<T>) -> Wector<T> {
        Wector { x: p.x, y: p.y, z: p.z }
    }

    /// The vector that leads from the origin to `p`.
    pub fn from_point(p: &Point<T>) -> (r: Wector<T>)
        ensures
            r == Self::from_point_spec(*p),
    {
        Wector { x: p.x, y: p.y, z: p.z }
    }

    pub fn set_vals(&mut self, a: &T, b: &T, c: &T)
        ensures
            *final(self) == (Wector { x: *a, y: *b, z: *c }),
    {
        self.x = *a;
        self.y = *b;
        self.z = *c;
    }
}

impl<T: Copy> Components for Wector<T> {
    type Out = T;

    open spec fn x_spec(&self) -> T {
        self.x
    }

    open spec fn y_spec(&self) -> T {
        self.y
    }

    open spec fn z_spec(&self) -> T {
        self.z
    }

    fn x(&self) -> (r: T) {
        self.x
    }

    fn y(&self) -> (r: T) {
        self.y
    }

    fn z(&self) -> (r: T) {
        self.z
    }
}

impl<T: Zero<Out = T> + Copy> Zero for Wector<T> {
    type Out = Wector<T>;

    open spec fn zero_spec() -> Wector<T> {
        Wector { x: T::zero_spec(), y: T::zero_spec(), z: T::zero_spec() }
    }

    fn zero() -> (r: Wector<T>) {
        Wector::new(T::zero(), T::zero(), T::zero())
    }
}

impl<T: Div<Output = T> + Copy> Wector<T> {
    /// Whether every component may be divided by `other`.
    pub open spec fn div_by_req(&self, other: T) -> bool {
        &&& self.x.div_req(other)
        &&& self.y.div_req(other)
        &&& self.z.div_req(other)
    }

    /// The vector with every component divided by `other`.
    pub open spec fn div_by_spec(&self, other: T) -> Wector<T> {
        Wector {
            x: self.x.div_spec(other),
            y: self.y.div_spec(other),
            z: self.z.div_spec(other),
        }
    }

    pub fn div_by(&self, other: &T) -> (r: Wector<T>)
        requires
            self.div_by_req(*other),
        ensures
            T::obeys_div_spec() ==> r == self.div_by_spec(*other),
    {
        Wector { x: self.x / *other, y: self.y / *other, z: self.z / *other }
    }
}

impl<T: Add<Output = T> + Copy> vstd::std_specs::ops::AddSpecImpl for Wector<T> {
    open spec fn obeys_add_spec() -> bool {
        T::obeys_add_spec()
    }

    open spec fn add_req(self, v2: Wector<T>) -> bool {
        &&& self.x.add_req(v2.x)
        &&& self.y.add_req(v2.y)
        &&& self.z.add_req(v2.z)
    }

    open spec fn add_spec(self, v2: Wector<T>) -> Wector<T> {
        Wector { x: self.x.add_spec(v2.x), y: self.y.add_spec(v2.y), z: self.z.add_spec(v2.z) }
    }
}

impl<T: Add<Output = T> + Copy> Add for Wector<T> {
    type Output = Wector<T>;

    /// Adds component by component; `add_spec` names the result.
    fn add(self, v2: Wector<T>) -> (r: Wector<T>) {
        Wector { x: self.x + v2.x, y: self.y + v2.y, z: self.z + v2.z }
    }
}

impl<T: Sub<Output = T> + Copy> vstd::std_specs::ops::SubSpecImpl for Wector<T> {
    open spec fn obeys_sub_spec() -> bool {
        T::obeys_sub_spec()
    }

    open spec fn sub_req(self, v2: Wector<T>) -> bool {
        &&& self.x.sub_req(v2.x)
        &&& self.y.sub_req(v2.y)
        &&& self.z.sub_req(v2.z)
    }

    open spec fn sub_spec(self, v2: Wector<T>) -> Wector<T> {
        Wector { x: self.x.sub_spec(v2.x), y: self.y.sub_spec(v2.y), z: self.z.sub_spec(v2.z) }
    }
}

impl<T: Sub<Output = T> + Copy> Sub for Wector<T> {
    type Output = Wector<T>;

    /// Subtracts component by component; `sub_spec` names the result.
    fn sub(self, v2: Wector<T>) -> (r: Wector<T>) {
        Wector { x: self.x - v2.x, y: self.y - v2.y, z: self.z - v2.z }
    }
}

impl<T: Neg<Output = T> + Copy> vstd::std_specs::ops::NegSpecImpl for Wector<T> {
    open spec fn obeys_neg_spec() -> bool {
        T::obeys_neg_spec()
    }

    open spec fn neg_req(self) -> bool {
        &&& self.x.neg_req()
        &&& self.y.neg_req()
        &&& self.z.neg_req()
    }

    open spec fn neg_spec(self) -> Wector<T> {
        Wector { x: self.x.neg_spec(), y: self.y.neg_spec(), z: self.z.neg_spec() }
    }
}

impl<T: Neg<Output = T> + Copy> Neg for Wector<T> {
    type Output = Wector<T>;

    /// Negates every component; `neg_spec` names the result.
    fn neg(self) -> (r: Wector<T>) {
        Wector { x: self.x.neg(), y: self.y.neg(), z: self.z.neg() }
    }
}

impl<T: PartialEq> vstd::std_specs::cmp::PartialEqSpecImpl for Wector<T> {
    open spec fn obeys_eq_spec() -> bool {
        T::obeys_eq_spec()
    }

    open spec fn eq_spec(&self, other: &Wector<T>) -> bool {
        &&& self.x.eq_spec(&other.x)
        &&& self.y.eq_spec(&other.y)
        &&& self.z.eq_spec(&other.z)
    }
}

impl<T: PartialEq> PartialEq for Wector<T> {
    /// Compares component by component, with the scalar's own equality;
    /// `eq_spec` names the result.
    fn eq(&self, other: &Wector<T>) -> (r: bool) {
        self.x.eq(&other.x) && self.y.eq(&other.y) && self.z.eq(&other.z)
    }
}

impl<T: Eq> Eq for Wector<T> {

}

impl<T: Ord> Wector<T> {
    /// The ordering that `cmp` returns: lexicographic on the components.
    pub open spec fn lexicographic_order(&self, other: &Wector<T>) -> Ordering {
        lexicographic(
            self.x.cmp_spec(&other.x),
            self.y.cmp_spec(&other.y),
            self.z.cmp_spec(&other.z),
        )
    }

    /// Compares two vectors component by component, the first component first.
    pub fn cmp(&self, other: &Wector<T>) -> (r: Ordering)
        ensures
            T::obeys_cmp_spec() ==> r == self.lexicographic_order(other),
    {
        let xord = self.x.cmp(&other.x);
        let yord = self.y.cmp(&other.y);
        let zord = self.z.cmp(&other.z);
        match xord {
            Ordering::Less => Ordering::Less,
            Ordering::Equal => match yord {
                Ordering::Less => Ordering::Less,
                Ordering::Equal => zord,
                Ordering::Greater => Ordering::Greater,
            },
            Ordering::Greater => Ordering::Greater,
        }
    }
}

impl<T: Ord> vstd::std_specs::cmp::PartialOrdSpecImpl for Wector<T> {
    open spec fn obeys_partial_cmp_spec() -> bool {
        T::obeys_cmp_spec()
    }

    open spec fn partial_cmp_spec(&self, other: &Wector<T>) -> Option<Ordering> {
        Some(self.lexicographic_order(other))
    }
}

impl<T: Ord> PartialOrd for Wector<T> {
    /// Orders lexicographically; `partial_cmp_spec` names the result.
    fn partial_cmp(&self, other: &Wector<T>) -> (r: Option<Ordering>) {
        Some(self.cmp(other))
    }
}

impl<T: Sub<Output = T> + Copy> Wector<T> {
    /// The displacement that leads from `p1` to `p2`.
    pub open spec fn from_pair_spec(p1: Point<T>, p2: Point<T>) -> Wector<T> {
        Self::from_point_spec(p2.sub_spec(p1))
    }

    /// The displacement that leads from `p1` to `p2`, that is `p2 - p1`.
    pub fn from_pair(p1: Point<T>, p2: Point<T>) -> (r: Wector<T>)
        requires
            p2.sub_req(p1),
        ensures
            T::obeys_sub_spec() ==> r == Self::from_pair_spec(p1, p2),
    {
        let diff = p2 - p1;
        Wector { x: diff.x, y: diff.y, z: diff.z }
    }
}

impl<T: Arithmetic<T> + Copy> Wector<T> {
    /// Whether `dot` can be computed: the scalar's operators are functions
    /// of their operands, and every product and sum is defined.
    pub open spec fn dot_req(&self, v2: &Wector<T>) -> bool {
        &&& obeys_arithmetic::<T>()
        &&& self.x.mul_req(v2.x)
        &&& self.y.mul_req(v2.y)
        &&& self.z.mul_req(v2.z)
        &&& self.x.mul_spec(v2.x).add_req(self.y.mul_spec(v2.y))
        &&& self.x.mul_spec(v2.x).add_spec(self.y.mul_spec(v2.y)).add_req(self.z.mul_spec(v2.z))
    }

    /// The dot product `x1*x2 + y1*y2 + z1*z2`, summed from the left.
    pub open spec fn dot_spec(&self, v2: &Wector<T>) -> T {
        self.x.mul_spec(v2.x).add_spec(self.y.mul_spec(v2.y)).add_spec(self.z.mul_spec(v2.z))
    }

    pub fn dot(&self, v2: &Wector<T>) -> (r: T)
        requires
            self.dot_req(v2),
        ensures
            r == self.dot_spec(v2),
    {
        self.x * v2.x + self.y * v2.y + self.z * v2.z
    }

    /// Whether `cross` can be computed: the scalar's operators are functions
    /// of their operands, and every product, difference and negation is
    /// defined.
    pub open spec fn cross_req(&self, v2: &Wector<T>) -> bool {
        &&& obeys_arithmetic::<T>()
        &&& self.y.mul_req(v2.z)
        &&& self.z.mul_req(v2.y)
        &&& self.y.mul_spec(v2.z).sub_req(self.z.mul_spec(v2.y))
        &&& self.x.mul_req(v2.z)
        &&& self.z.mul_req(v2.x)
        &&& self.x.mul_spec(v2.z).sub_req(self.z.mul_spec(v2.x))
        &&& self.x.mul_spec(v2.z).sub_spec(self.z.mul_spec(v2.x)).neg_req()
        &&& self.x.mul_req(v2.y)
        &&& self.y.mul_req(v2.x)
        &&& self.x.mul_spec(v2.y).sub_req(self.y.mul_spec(v2.x))
    }

    /// The right-handed cross product
    /// `(y1*z2 - z1*y2, -(x1*z2 - z1*x2), x1*y2 - y1*x2)`.
    pub open spec fn cross_spec(&self, v2: &Wector<T>) -> Wector<T> {
        Wector {
            x: self.y.mul_spec(v2.z).sub_spec(self.z.mul_spec(v2.y)),
            y: self.x.mul_spec(v2.z).sub_spec(self.z.mul_spec(v2.x)).neg_spec(),
            z: self.x.mul_spec(v2.y).sub_spec(self.y.mul_spec(v2.x)),
        }
    }

    pub fn cross(&self, v2: &Wector<T>) -> (r: Wector<T>)
        requires
            self.cross_req(v2),
        ensures
            r == self.cross_spec(v2),
    {
        let a = self.y * v2.z - self.z * v2.y;
        let b = (self.x * v2.z - self.z * v2.x).neg();
        let c = self.x * v2.y - self.y * v2.x;
        Wector::new(a, b, c)
    }
}

impl<T: Arithmetic<T> + Zero<Out = T> + PartialEq + Copy> Wector<T> {
    /// What `is_orthogonal_to` tests: the cross product equals the zero
    /// vector, component by component, under the scalar's own equality.
    pub open spec fn is_orthogonal_to_spec(&self, v2: &Wector<T>) -> bool {
        self.cross_spec(v2).eq_spec(&Wector::<T>::zero_spec())
    }

    /// Tests whether the cross product with `v2` is the zero vector.  The
    /// comparison is exact: no tolerance is applied.
    pub fn is_orthogonal_to(&self, v2: &Wector<T>) -> (r: bool)
        requires
            self.cross_req(v2),
        ensures
            T::obeys_eq_spec() ==> r == self.is_orthogonal_to_spec(v2),
    {
        self.cross(v2) == Wector::new(T::zero(), T::zero(), T::zero())
    }
}

impl<T: SquareRoot<T> + Arithmetic<T> + Copy> Wector<T> {
    /// Whether `norm` can be computed: as for the dot product of the vector
    /// with itself.
    pub open spec fn norm_req(&self) -> bool {
        self.dot_req(self)
    }

    /// The Euclidean length `sqrt(x*x + y*y + z*z)`.
    pub open spec fn norm_spec(&self) -> T {
        self.dot_spec(self).squareroot_spec()
    }

    pub fn norm(&self) -> (r: T)
        requires
            self.norm_req(),
        ensures
            r == self.norm_spec(),
    {
        (self.x * self.x + self.y * self.y + self.z * self.z).squareroot()
    }

    /// Whether `unit` can be computed: the length can, and every component
    /// may be divided by it.
    pub open spec fn unit_req(&self) -> bool {
        &&& self.norm_req()
        &&& self.div_by_req(self.norm_spec())
    }

    /// The vector divided by its own length.
    pub open spec fn unit_spec(&self) -> Wector<T> {
        self.div_by_spec(self.norm_spec())
    }

    /// Scales the vector to length one.  Nothing guards against a vector of
    /// length zero: the outcome is then whatever the scalar's division gives.
    pub fn unit(&self) -> (r: Wector<T>)
        requires
            self.unit_req(),
        ensures
            r == self.unit_spec(),
    {
        let n = self.norm();
        self.div_by(&n)
    }
}

/// Dot product symmetry: over a scalar whose multiplication is commutative,
/// `a.dot(b)` and `b.dot(a)` are the same scalar, for all vectors `a`, `b`.
pub proof fn lemma_dot_symmetric<T: Arithmetic<T> + Copy>(a: Wector<T>, b: Wector<T>)
    requires
        mul_commutes::<T>(),
    ensures
        a.dot_spec(&b) == b.dot_spec(&a),
{
}

/// How the three components of a triple are to be read.
///
/// A Cartesian triple is `(x, y, z)`, a cylindrical one `(r, theta, z)` and
/// a spherical one `(rho, theta, phi)`, with `theta` the azimuth and `phi`
/// the angle from the third axis.
#[derive(Debug, Copy, Clone, PartialEq, Eq)]
pub enum Coordinates {
    Cartesian,
    Cylindrical,
    Spherical,
}

impl Coordinates {
    /// Whether `into_cartesian` can be computed.  A Cartesian triple asks for
    /// nothing; the other two ask that the scalar's operators are functions of
    /// their operands and that every product is defined.
    pub open spec fn into_cartesian_req<U, T>(self, b: &U) -> bool where
        U: Components<Out = T> + PointConstruction<T, Out = U> + Copy,
        T: Arithmetic<T> + Trigonometry<T> + Copy,
     {
        let (p, q, s) = (b.x_spec(), b.y_spec(), b.z_spec());
        match self {
            Coordinates::Cartesian => true,
            Coordinates::Cylindrical => {
                &&& obeys_arithmetic::<T>()
                &&& p.mul_req(q.cosine_spec())
                &&& p.mul_req(q.sine_spec())
            },
            Coordinates::Spherical => {
                &&& obeys_arithmetic::<T>()
                &&& p.mul_req(s.sine_spec())
                &&& p.mul_spec(s.sine_spec()).mul_req(q.cosine_spec())
                &&& p.mul_spec(s.sine_spec()).mul_req(q.sine_spec())
                &&& p.mul_req(s.cosine_spec())
            },
        }
    }

    /// The Cartesian triple of the position that `b` denotes in system `self`:
    /// from cylindrical `x = r*cos(theta)`, `y = r*sin(theta)`, `z = z`; from
    /// spherical `x = rho*sin(phi)*cos(theta)`, `y = rho*sin(phi)*sin(theta)`,
    /// `z = rho*cos(phi)`, each product taken from the left.  A Cartesian triple
    /// is returned as it is.
    pub open spec fn into_cartesian_spec<U, T>(self, b: &U) -> U where
        U: Components<Out = T> + PointConstruction<T, Out = U> + Copy,
        T: Arithmetic<T> + Trigonometry<T> + Copy,
     {
        let (p, q, s) = (b.x_spec(), b.y_spec(), b.z_spec());
        match self {
            Coordinates::Cartesian => *b,
            Coordinates::Cylindrical => U::from_triple_spec(
                p.mul_spec(q.cosine_spec()),
                p.mul_spec(q.sine_spec()),
                s,
            ),
            Coordinates::Spherical => U::from_triple_spec(
                p.mul_spec(s.sine_spec()).mul_spec(q.cosine_spec()),
                p.mul_spec(s.sine_spec()).mul_spec(q.sine_spec()),
                p.mul_spec(s.cosine_spec()),
            ),
        }
    }

    /// Re-expresses in Cartesian coordinates the triple `b`, read in system
    /// `self`.
    pub fn into_cartesian<U, T>(self, b: &U) -> (r: U) where
        U: Components<Out = T> + PointConstruction<T, Out = U> + Copy,
        T: Arithmetic<T> + Trigonometry<T> + Copy,

        requires
            self.into_cartesian_req(b),
        ensures
            r == self.into_cartesian_spec(b),
            self == Coordinates::Cartesian ==> r == *b,
    {
        match self {
            Coordinates::Cartesian => *b,
            Coordinates::Cylindrical => {
                let x = b.x() * b.y().cosine();
                let y = b.x() * b.y().sine();
                U::from_triple(x, y, b.z())
            },
            Coordinates::Spherical => {
                let axial = b.x() * b.z().sine();
                let x = axial * b.y().cosine();
                let y = axial * b.y().sine();
                let z = b.x() * b.z().cosine();
                U::from_triple(x, y, z)
            },
        }
    }

    /// Whether `into_cylindrical` can be computed.  A cylindrical triple asks
    /// for nothing; the other two ask that the scalar's operators are functions
    /// of their operands and that every product and sum is defined.
    pub open spec fn into_cylindrical_req<U, T>(self, b: &U) -> bool where
        U: Components<Out = T> + PointConstruction<T, Out = U> + Copy,
        T: Math<T> + Copy,
     {
        let (p, q, s) = (b.x_spec(), b.y_spec(), b.z_spec());
        match self {
            Coordinates::Cartesian => {
                &&& obeys_arithmetic::<T>()
                &&& p.mul_req(p)
                &&& q.mul_req(q)
                &&& p.mul_spec(p).add_req(q.mul_spec(q))
            },
            Coordinates::Cylindrical => true,
            Coordinates::Spherical => {
                &&& obeys_arithmetic::<T>()
                &&& p.mul_req(s.sine_spec())
                &&& p.mul_req(s.cosine_spec())
            },
        }
    }

    /// The cylindrical triple of the position that `b` denotes in system
    /// `self`: from Cartesian `r = sqrt(x*x + y*y)`, `theta = atan2(y, x)`,
    /// `z = z`; from spherical `r = rho*sin(phi)`, `theta = theta`,
    /// `z = rho*cos(phi)`.  A cylindrical triple is returned as it is.
    pub open spec fn into_cylindrical_spec<U, T>(self, b: &U) -> U where
        U: Components<Out = T> + PointConstruction<T, Out = U> + Copy,
        T: Math<T> + Copy,
     {
        let (p, q, s) = (b.x_spec(), b.y_spec(), b.z_spec());
        match self {
            Coordinates::Cartesian => U::from_triple_spec(
                p.mul_spec(p).add_spec(q.mul_spec(q)).squareroot_spec(),
                q.arctangent2_spec(p),
                s,
            ),
            Coordinates::Cylindrical => *b,
            Coordinates::Spherical => U::from_triple_spec(
                p.mul_spec(s.sine_spec()),
                q,
                p.mul_spec(s.cosine_spec()),
            ),
        }
    }

    /// Re-expresses in cylindrical coordinates the triple `b`, read in system
    /// `self`.
    pub fn into_cylindrical<U, T>(self, b: &U) -> (r: U) where
        U: Components<Out = T> + PointConstruction<T, Out = U> + Copy,
        T: Math<T> + Copy,

        requires
            self.into_cylindrical_req(b),
        ensures
            r == self.into_cylindrical_spec(b),
            self == Coordinates::Cylindrical ==> r == *b,
    {
        match self {
            Coordinates::Cartesian => {
                let r = (b.x() * b.x() + b.y() * b.y()).squareroot();
                let theta = b.y().arctangent2(b.x());
                U::from_triple(r, theta, b.z())
            },
            Coordinates::Cylindrical => *b,
            Coordinates::Spherical => {
                let r = b.x() * b.z().sine();
                let z = b.x() * b.z().cosine();
                U::from_triple(r, b.y(), z)
            },
        }
    }

    /// Whether `into_spherical` can be computed.  A spherical triple asks for
    /// nothing; the other two ask that the scalar's operators are functions of
    /// their operands and that every product and sum is defined.
    pub open spec fn into_spherical_req<U, T>(self, b: &U) -> bool where
        U: Components<Out = T> + PointConstruction<T, Out = U> + Copy,
        T: Math<T> + Copy,
     {
        let (p, q, s) = (b.x_spec(), b.y_spec(), b.z_spec());
        match self {
            Coordinates::Cartesian => {
                &&& obeys_arithmetic::<T>()
                &&& p.mul_req(p)
                &&& q.mul_req(q)
                &&& s.mul_req(s)
                &&& p.mul_spec(p).add_req(q.mul_spec(q))
                &&& p.mul_spec(p).add_spec(q.mul_spec(q)).add_req(s.mul_spec(s))
            },
            Coordinates::Cylindrical => {
                &&& obeys_arithmetic::<T>()
                &&& p.mul_req(p)
                &&& s.mul_req(s)
                &&& p.mul_spec(p).add_req(s.mul_spec(s))
            },
            Coordinates::Spherical => true,
        }
    }

    /// The spherical triple of the position that `b` denotes in system `self`:
    /// from Cartesian `rho = sqrt(x*x + y*y + z*z)`, `theta = atan2(y, x)`,
    /// `phi = atan2(sqrt(x*x + y*y), z)`; from cylindrical
    /// `rho = sqrt(r*r + z*z)`, `theta = theta`, `phi = atan2(r, z)`.  A
    /// spherical triple is returned as it is.
    pub open spec fn into_spherical_spec<U, T>(self, b: &U) -> U where
        U: Components<Out = T> + PointConstruction<T, Out = U> + Copy,
        T: Math<T> + Copy,
     {
        let (p, q, s) = (b.x_spec(), b.y_spec(), b.z_spec());
        match self {
            Coordinates::Cartesian => {
                let planar = p.mul_spec(p).add_spec(q.mul_spec(q));
                U::from_triple_spec(
                    planar.add_spec(s.mul_spec(s)).squareroot_spec(),
                    q.arctangent2_spec(p),
                    planar.squareroot_spec().arctangent2_spec(s),
                )
            },
            Coordinates::Cylindrical => U::from_triple_spec(
                p.mul_spec(p).add_spec(s.mul_spec(s)).squareroot_spec(),
                q,
                p.arctangent2_spec(s),
            ),
            Coordinates::Spherical => *b,
        }
    }

    /// Re-expresses in spherical coordinates the triple `b`, read in system
    /// `self`.
    pub fn into_spherical<U, T>(self, b: &U) -> (r: U) where
        U: Components<Out = T> + PointConstruction<T, Out = U> + Copy,
        T: Math<T> + Copy,

        requires
            self.into_spherical_req(b),
        ensures
            r == self.into_spherical_spec(b),
            self == Coordinates::Spherical ==> r == *b,
    {
        match self {
            Coordinates::Cartesian => {
                let planar = b.x() * b.x() + b.y() * b.y();
                let rho = (planar + b.z() * b.z()).squareroot();
                let theta = b.y().arctangent2(b.x());
                let phi = planar.squareroot().arctangent2(b.z());
                U::from_triple(rho, theta, phi)
            },
            Coordinates::Cylindrical => {
                let rho = (b.x() * b.x() + b.z() * b.z()).squareroot();
                let phi = b.x().arctangent2(b.z());
                U::from_triple(rho, b.y(), phi)
            },
            Coordinates::Spherical => *b,
        }
    }
}

/// Whether `convert` can be computed: as for the conversion into `to`.
pub open spec fn convert_req<U, T>(from: Coordinates, to: Coordinates, b: &U) -> bool where
    U: Components<Out = T> + PointConstruction<T, Out = U> + Copy,
    T: Math<T> + Copy,
 {
    match to {
        Coordinates::Cartesian => from.into_cartesian_req(b),
        Coordinates::Cylindrical => from.into_cylindrical_req(b),
        Coordinates::Spherical => from.into_spherical_req(b),
    }
}

/// The triple that denotes in system `to` the position that `b` denotes in
/// system `from`.
pub open spec fn convert_spec<U, T>(from: Coordinates, to: Coordinates, b: &U) -> U where
    U: Components<Out = T> + PointConstruction<T, Out = U> + Copy,
    T: Math<T> + Copy,
 {
    match to {
        Coordinates::Cartesian => from.into_cartesian_spec(b),
        Coordinates::Cylindrical => from.into_cylindrical_spec(b),
        Coordinates::Spherical => from.into_spherical_spec(b),
    }
}

/// Re-expresses in system `to` the triple `b`, read in system `from`.  Where
/// the two systems are the same, the triple comes back unchanged.
pub fn convert<U, T>(from: Coordinates, to: Coordinates, b: &U) -> (r: U) where
    U: Components<Out = T> + PointConstruction<T, Out = U> + Copy,
    T: Math<T> + Copy,

    requires
        convert_req(from, to, b),
    ensures
        r == convert_spec(from, to, b),
        from == to ==> r == *b,
{
    match to {
        Coordinates::Cartesian => from.into_cartesian(b),
        Coordinates::Cylindrical => from.into_cylindrical(b),
        Coordinates::Spherical => from.into_spherical(b),
    }
}

} // verus!
