//! The capabilities a scalar must offer to serve as a component of points,
//! vectors and shapes.
//!
//! A scalar brings the five arithmetic operators, a square root, the
//! trigonometric functions, the two identities and an equality.  The library
//! never looks inside a scalar.  It speaks of one through specification
//! functions: `add_spec` and its siblings for the operators, and the `*_spec`
//! functions of the traits below for everything else.  Each executable method
//! of these traits promises to return what its specification function names.
//!
//! The scalar traits are meant to be implemented by numeric types that no
//! proof can reach, floating point above all.  Their specification functions
//! therefore all have a default, which says nothing of the value: such an
//! implementation supplies the executable methods and nothing more.  A scalar
//! that is verified overrides the defaults with definitions, as `isize` does
//! here.

use super::wectors::{Point, Wector};
use std::ops::{Add, Div, Mul, Neg, Sub};
use vstd::prelude::*;
use vstd::std_specs::ops::{AddSpec, DivSpec, MulSpec, NegSpec, SubSpec};

verus! {

/// The five arithmetic operators, all yielding `T`.
pub trait Arithmetic<T>: Add<Output = T> + Sub<Output = T> + Mul<Output = T> + Div<
    Output = T,
> + Neg<Output = T> + Sized {

}

/// Whether the five operators of `T` are functions of their operands: where
/// an operator's precondition (`add_req` and its siblings) holds, the operator
/// returns exactly the value that its specification (`add_spec` and its
/// siblings) names.
pub open spec fn obeys_arithmetic<T: Arithmetic<T>>() -> bool {
    &&& T::obeys_add_spec()
    &&& T::obeys_sub_spec()
    &&& T::obeys_mul_spec()
    &&& T::obeys_div_spec()
    &&& T::obeys_neg_spec()
}

/// Whether a product of two scalars of `T` is the same whatever the order of
/// the factors.
pub open spec fn mul_commutes<T: Arithmetic<T>>() -> bool {
    forall|a: T, b: T| #[trigger] a.mul_spec(b) == b.mul_spec(a)
}

/// Everything the geometry needs from a scalar.
pub trait Math<T>: Arithmetic<T> + SquareRoot<T> + Trigonometry<T> + Zero<Out = T> + One<
    Out = T,
> + PartialEq + Sized {

}

/// Read access to the three components of a triple.
pub trait Components {
    type Out;

    /// The first component.
    spec fn x_spec(&self) -> Self::Out;

    /// The second component.
    spec fn y_spec(&self) -> Self::Out;

    /// The third component.
    spec fn z_spec(&self) -> Self::Out;

    fn x(&self) -> (r: Self::Out)
        ensures
            r == self.x_spec(),
    ;

    fn y(&self) -> (r: Self::Out)
        ensures
            r == self.y_spec(),
    ;

    fn z(&self) -> (r: Self::Out)
        ensures
            r == self.z_spec(),
    ;
}

/// The square root of a scalar.
pub trait SquareRoot<T> {
    /// The value that `squareroot` returns.
    open spec fn squareroot_spec(&self) -> T {
        arbitrary()
    }

    fn squareroot(&self) -> (r: T)
        ensures
            r == self.squareroot_spec(),
    ;
}

/// The trigonometric functions of a scalar, and the constant pi.
pub trait Trigonometry<T> {
    /// The value that `arctangent2` returns.
    open spec fn arctangent2_spec(&self, x: T) -> T {
        arbitrary()
    }

    /// The value that `sine` returns.
    open spec fn sine_spec(&self) -> T {
        arbitrary()
    }

    /// The value that `cosine` returns.
    open spec fn cosine_spec(&self) -> T {
        arbitrary()
    }

    /// The value that `tangent` returns.
    open spec fn tangent_spec(&self) -> T {
        arbitrary()
    }

    /// The value that `pi` returns.
    open spec fn pi_spec() -> T {
        arbitrary()
    }

    /// The angle of the point whose ordinate is `self` and whose abscissa is `x`.
    fn arctangent2(&self, x: T) -> (r: T)
        ensures
            r == self.arctangent2_spec(x),
    ;

    fn sine(&self) -> (r: T)
        ensures
            r == self.sine_spec(),
    ;

    fn cosine(&self) -> (r: T)
        ensures
            r == self.cosine_spec(),
    ;

    fn tangent(&self) -> (r: T)
        ensures
            r == self.tangent_spec(),
    ;

    fn pi() -> (r: T)
        ensures
            r == Self::pi_spec(),
    ;
}

/// The additive identity.
pub trait Zero {
    type Out;

    /// The value that `zero` returns.
    open spec fn zero_spec() -> Self::Out {
        arbitrary()
    }

    fn zero() -> (r: Self::Out)
        ensures
            r == Self::zero_spec(),
    ;
}

/// The multiplicative identity.
pub trait One {
    type Out;

    /// The value that `one` returns.
    open spec fn one_spec() -> Self::Out {
        arbitrary()
    }

    fn one() -> (r: Self::Out)
        ensures
            r == Self::one_spec(),
    ;
}

/// The sign class of a scalar.
#[derive(Debug, Clone, Copy, PartialEq, Eq)]
pub enum Sign {
    Negative,
    Zero,
    Positive,
}

impl Sign {
    /// The sign class of a scalar of which three things are known: whether it
    /// compares equal to zero, whether it is not a number, and whether it
    /// carries a minus sign.  Zero and not-a-number are both classed `Zero`,
    /// whatever their sign.
    pub open spec fn classify_spec(is_zero: bool, is_nan: bool, is_negative: bool) -> Sign {
        if is_zero || is_nan {
            Sign::Zero
        } else if is_negative {
            Sign::Negative
        } else {
            Sign::Positive
        }
    }

    /// Classifies a scalar from what is known of it.
    pub fn classify(is_zero: bool, is_nan: bool, is_negative: bool) -> (r: Sign)
        ensures
            r == Self::classify_spec(is_zero, is_nan, is_negative),
    {
        if is_zero || is_nan {
            Sign::Zero
        } else if is_negative {
            Sign::Negative
        } else {
            Sign::Positive
        }
    }
}

/// Classification of a scalar by sign.
pub trait Signed {
    /// The value that `sign` returns.
    open spec fn sign_spec(&self) -> Sign {
        arbitrary()
    }

    fn sign(&self) -> (r: Sign)
        ensures
            r == self.sign_spec(),
    ;
}

/// Building a triple from its three components.
pub trait PointConstruction<T> {
    type Out;

    /// The triple that `from_triple` builds.
    spec fn from_triple_spec(a: T, b: T, c: T) -> Self::Out;

    fn from_triple(a: T, b: T, c: T) -> (r: Self::Out)
        ensures
            r == Self::from_triple_spec(a, b, c),
    ;
}

/// The measurements every planar shape offers.
///
/// Each measurement comes with a precondition (`*_req`), which collects the
/// preconditions of the scalar operations it performs, and with the value it
/// returns (`*_spec`).
pub trait Polygon {
    type Out;

    /// Whether `area` can be computed.
    spec fn area_req(&self) -> bool;

    /// The value that `area` returns.
    spec fn area_spec(&self) -> Self::Out;

    /// Whether `perimeter` can be computed.
    spec fn perimeter_req(&self) -> bool;

    /// The value that `perimeter` returns.
    spec fn perimeter_spec(&self) -> Self::Out;

    /// Whether `centroid` can be computed.
    spec fn centroid_req(&self) -> bool;

    /// The value that `centroid` returns.
    spec fn centroid_spec(&self) -> Point<Self::Out>;

    /// Whether `normal` can be computed.
    spec fn normal_req(&self) -> bool;

    /// The value that `normal` returns.
    spec fn normal_spec(&self) -> Wector<Self::Out>;

    fn area(&self) -> (r: Self::Out)
        requires
            self.area_req(),
        ensures
            r == self.area_spec(),
    ;

    fn perimeter(&self) -> (r: Self::Out)
        requires
            self.perimeter_req(),
        ensures
            r == self.perimeter_spec(),
    ;

    fn centroid(&self) -> (r: Point<Self::Out>)
        requires
            self.centroid_req(),
        ensures
            r == self.centroid_spec(),
    ;

    fn normal(&self) -> (r: Wector<Self::Out>)
        requires
            self.normal_req(),
        ensures
            r == self.normal_spec(),
    ;
}

/// Why a shape could not be built.
#[derive(Debug, Clone, Copy, PartialEq, Eq)]
pub enum PolygonError {
    /// Reserved for degenerate input; no constructor returns it yet.
    BadConstruction,
    /// Adjacent edges are not orthogonal, or opposite edges differ.
    NonOrthogonal,
}

impl Arithmetic<isize> for isize {

}

/// Machine integers multiply commutatively.
pub proof fn lemma_isize_mul_commutes()
    ensures
        mul_commutes::<isize>(),
{
    assert forall|a: isize, b: isize| #[trigger] a.mul_spec(b) == b.mul_spec(a) by {
        assert(a * b == b * a) by (nonlinear_arith);
    }
}

impl Zero for isize {
    type Out = isize;

    open spec fn zero_spec() -> isize {
        0
    }

    fn zero() -> (r: isize) {
        0
    }
}

impl One for isize {
    type Out = isize;

    open spec fn one_spec() -> isize {
        1
    }

    fn one() -> (r: isize) {
        1
    }
}

impl Signed for isize {
    open spec fn sign_spec(&self) -> Sign {
        if *self < 0 {
            Sign::Negative
        } else if *self == 0 {
            Sign::Zero
        } else {
            Sign::Positive
        }
    }

    fn sign(&self) -> (r: Sign) {
        Sign::classify(*self == 0, false, *self < 0)
    }
}

} // verus!
