//! Planar shapes and their measurements: area, perimeter, centroid and unit
//! normal.  Every measurement first re-expresses the shape's vertices in
//! Cartesian coordinates.

use super::mathtraits::{obeys_arithmetic, Arithmetic, Math, Polygon, PolygonError, Zero};
use super::wectors::{convert, convert_req, convert_spec, Coordinates, Point, Wector};
use std::ops::Neg;
use vstd::prelude::*;
use vstd::std_specs::cmp::PartialEqSpec;
use vstd::std_specs::ops::{AddSpec, DivSpec, MulSpec, NegSpec, SubSpec};

verus! {

/// Whether every point of `v` can be converted from system `u` to system `s`.
pub open spec fn parameterization_req<T: Math<T> + Copy>(
    s: Coordinates,
    u: Coordinates,
    v: Seq<Point<T>>,
) -> bool {
    forall|i: int| 0 <= i < v.len() ==> convert_req(u, s, &#[trigger] v[i])
}

/// The points of `v`, each converted from system `u` to system `s`.
pub open spec fn parameterization_spec<T: Math<T> + Copy>(
    s: Coordinates,
    u: Coordinates,
    v: Seq<Point<T>>,
) -> Seq<Point<T>> {
    Seq::new(v.len(), |i: int| convert_spec(u, s, &v[i]))
}

/// Re-expresses in system `s` a list of points given in system `u`.
pub fn parameterization<T: Math<T> + Copy>(s: Coordinates, u: Coordinates, v: &Vec<Point<T>>) -> (r:
    Vec<Point<T>>)
    requires
        parameterization_req(s, u, v@),
    ensures
        r@ == parameterization_spec(s, u, v@),
        s == u ==> r@ == v@,
{
    let mut out: Vec<Point<T>> = Vec::new();
    let mut i: usize = 0;
    while i < v.len()
        invariant
            i <= v.len(),
            parameterization_req(s, u, v@),
            out@.len() == i,
            forall|k: int| 0 <= k < i ==> out@[k] == convert_spec(u, s, &v@[k]),
            s == u ==> forall|k: int| 0 <= k < i ==> out@[k] == v@[k],
        decreases v.len() - i,
    {
        out.push(convert(u, s, &v[i]));
        i += 1;
    }
    assert(out@ =~= parameterization_spec(s, u, v@));
    assert(s == u ==> out@ =~= v@);
    out
}

/// The index that follows `i` on a closed path of `n` points.
pub open spec fn successor(i: int, n: int) -> int {
    if i + 1 == n {
        0
    } else {
        i + 1
    }
}

/// Whether `lengths` can be computed for `points`: the scalar's operators are
/// functions of their operands, there is at least one point, and each point
/// can be subtracted from its successor.
pub open spec fn lengths_req<T: Arithmetic<T> + Copy>(points: Seq<Point<T>>) -> bool {
    &&& obeys_arithmetic::<T>()
    &&& points.len() > 0
    &&& forall|i: int|
        0 <= i < points.len() ==> points[successor(i, points.len() as int)].sub_req(
            #[trigger] points[i],
        )
}

/// The edges of the closed path through `points`: edge `i` leads from point
/// `i` to its successor, the last one back to the first point.
pub open spec fn lengths_spec<T: Arithmetic<T> + Copy>(points: Seq<Point<T>>) -> Seq<Wector<T>> {
    Seq::new(
        points.len(),
        |i: int| Wector::from_pair_spec(points[i], points[successor(i, points.len() as int)]),
    )
}

/// The edge vectors of the closed path through `points`.
pub fn lengths<T: Arithmetic<T> + Copy>(points: Vec<Point<T>>) -> (r: Vec<Wector<T>>)
    requires
        lengths_req(points@),
    ensures
        r@ == lengths_spec(points@),
{
    let n = points.len();
    let mut out: Vec<Wector<T>> = Vec::new();
    let mut i: usize = 0;
    while i < n
        invariant
            n == points.len(),
            i <= n,
            lengths_req(points@),
            out@.len() == i,
            forall|k: int|
                0 <= k < i ==> out@[k] == Wector::from_pair_spec(
                    points@[k],
                    points@[successor(k, n as int)],
                ),
        decreases n - i,
    {
        let next: usize = if i + 1 == n {
            0
        } else {
            i + 1
        };
        out.push(Wector::from_pair(points[i], points[next]));
        i += 1;
    }
    assert(out@ =~= lengths_spec(points@));
    out
}

/// The scalar two, built as `1 + 1`.
pub open spec fn two_spec<T: Math<T>>() -> T {
    T::one_spec().add_spec(T::one_spec())
}

/// The scalar three, built as `(1 + 1) + 1`.
pub open spec fn three_spec<T: Math<T>>() -> T {
    two_spec::<T>().add_spec(T::one_spec())
}

/// A triangle, given by its three vertices and the coordinate system in which
/// their components are to be read.
pub struct Triangle<T> {
    coords: Coordinates,
    pos: Vec<Point<T>>,
}

impl<T> Triangle<T> {
    #[verifier::type_invariant]
    spec fn has_three_vertices(&self) -> bool {
        self.pos@.len() == 3
    }

    /// The three vertices, as they were given.
    pub closed spec fn vertices(&self) -> Seq<Point<T>> {
        self.pos@
    }

    /// The coordinate system of the vertices.
    pub closed spec fn system(&self) -> Coordinates {
        self.coords
    }
}

impl<T: Math<T> + Copy> Triangle<T> {
    /// Builds a triangle.  Nothing is checked: three collinear points give a
    /// triangle of area zero.
    pub fn new(a: Point<T>, b: Point<T>, c: Point<T>, s: Coordinates) -> (r: Triangle<T>)
        ensures
            r.vertices() == seq![a, b, c],
            r.system() == s,
    {
        Triangle { coords: s, pos: vec![a, b, c] }
    }

    /// The vertices, read as triples of system `s` and re-expressed in the
    /// triangle's own system.
    pub fn reparm(&self, s: Coordinates) -> (r: Vec<Point<T>>)
        requires
            parameterization_req(self.system(), s, self.vertices()),
        ensures
            r@ == parameterization_spec(self.system(), s, self.vertices()),
    {
        parameterization(self.coords, s, &self.pos)
    }

    /// The vertices, re-expressed in system `s`.
    pub fn deparm(&self, s: Coordinates) -> (r: Vec<Point<T>>)
        requires
            parameterization_req(s, self.system(), self.vertices()),
        ensures
            r@ == parameterization_spec(s, self.system(), self.vertices()),
            r@.len() == 3,
    {
        proof {
            use_type_invariant(self);
        }
        parameterization(s, self.coords, &self.pos)
    }

    /// The vertices in Cartesian coordinates.
    pub open spec fn cartesian_vertices(&self) -> Seq<Point<T>> {
        parameterization_spec(Coordinates::Cartesian, self.system(), self.vertices())
    }

    /// Whether `segments` can be computed.
    pub open spec fn segments_req(&self) -> bool {
        &&& parameterization_req(Coordinates::Cartesian, self.system(), self.vertices())
        &&& lengths_req(self.cartesian_vertices())
    }

    /// The edges `ab`, `bc`, `ca` between the Cartesian vertices.
    pub open spec fn segments_spec(&self) -> Seq<Wector<T>> {
        lengths_spec(self.cartesian_vertices())
    }

    /// The three edge vectors `ab`, `bc` and `ca`, in Cartesian coordinates.
    pub fn segments(&self) -> (r: Vec<Wector<T>>)
        requires
            self.segments_req(),
        ensures
            r@ == self.segments_spec(),
            r@.len() == 3,
    {
        lengths(self.deparm(Coordinates::Cartesian))
    }
}

impl<T: Math<T> + Copy> Polygon for Triangle<T> {
    type Out = T;

    open spec fn area_req(&self) -> bool {
        let segs = self.segments_spec();
        &&& self.segments_req()
        &&& segs[2].neg_req()
        &&& segs[0].cross_req(&segs[2].neg_spec())
        &&& segs[0].cross_spec(&segs[2].neg_spec()).norm_req()
        &&& T::one_spec().add_req(T::one_spec())
        &&& segs[0].cross_spec(&segs[2].neg_spec()).norm_spec().div_req(two_spec::<T>())
    }

    /// Half the length of `ab x (-ca)`.
    open spec fn area_spec(&self) -> T {
        let segs = self.segments_spec();
        segs[0].cross_spec(&segs[2].neg_spec()).norm_spec().div_spec(two_spec::<T>())
    }

    open spec fn perimeter_req(&self) -> bool {
        let segs = self.segments_spec();
        &&& self.segments_req()
        &&& segs[0].norm_req()
        &&& segs[1].norm_req()
        &&& segs[2].norm_req()
        &&& segs[0].norm_spec().add_req(segs[1].norm_spec())
        &&& segs[0].norm_spec().add_spec(segs[1].norm_spec()).add_req(segs[2].norm_spec())
    }

    /// The lengths of the three edges, summed from the left.
    open spec fn perimeter_spec(&self) -> T {
        let segs = self.segments_spec();
        segs[0].norm_spec().add_spec(segs[1].norm_spec()).add_spec(segs[2].norm_spec())
    }

    open spec fn centroid_req(&self) -> bool {
        let pos = self.cartesian_vertices();
        &&& obeys_arithmetic::<T>()
        &&& parameterization_req(Coordinates::Cartesian, self.system(), self.vertices())
        &&& T::one_spec().add_req(T::one_spec())
        &&& two_spec::<T>().add_req(T::one_spec())
        &&& pos[0].add_req(pos[1])
        &&& pos[0].add_spec(pos[1]).add_req(pos[2])
        &&& pos[0].add_spec(pos[1]).add_spec(pos[2]).div_by_req(three_spec::<T>())
    }

    /// The sum of the Cartesian vertices, divided by three.
    open spec fn centroid_spec(&self) -> Point<T> {
        let pos = self.cartesian_vertices();
        pos[0].add_spec(pos[1]).add_spec(pos[2]).div_by_spec(three_spec::<T>())
    }

    open spec fn normal_req(&self) -> bool {
        let segs = self.segments_spec();
        &&& self.segments_req()
        &&& segs[0].cross_req(&segs[1])
        &&& segs[0].cross_spec(&segs[1]).unit_req()
    }

    /// The unit vector along `ab x bc`.
    open spec fn normal_spec(&self) -> Wector<T> {
        let segs = self.segments_spec();
        segs[0].cross_spec(&segs[1]).unit_spec()
    }

    fn area(&self) -> (r: T) {
        let segs = self.segments();
        let two: T = T::one() + T::one();
        let ac = segs[2].neg();
        segs[0].cross(&ac).norm() / two
    }

    fn perimeter(&self) -> (r: T) {
        let segs = self.segments();
        segs[0].norm() + segs[1].norm() + segs[2].norm()
    }

    fn centroid(&self) -> (r: Point<T>) {
        let three = T::one() + T::one() + T::one();
        let pos = self.deparm(Coordinates::Cartesian);
        (pos[0] + pos[1] + pos[2]).div_by(&three)
    }

    fn normal(&self) -> (r: Wector<T>) {
        let segs = self.segments();
        let cross = segs[0].cross(&segs[1]);
        cross.unit()
    }
}

/// The scalar four, built as `(((0 + 1) + 1) + 1) + 1`.
pub open spec fn four_spec<T: Math<T>>() -> T {
    T::zero_spec().add_spec(T::one_spec()).add_spec(T::one_spec()).add_spec(
        T::one_spec(),
    ).add_spec(T::one_spec())
}

/// Whether `four_spec` can be computed.
pub open spec fn four_req<T: Math<T>>() -> bool {
    let zero = T::zero_spec();
    let one = T::one_spec();
    &&& obeys_arithmetic::<T>()
    &&& zero.add_req(one)
    &&& zero.add_spec(one).add_req(one)
    &&& zero.add_spec(one).add_spec(one).add_req(one)
    &&& zero.add_spec(one).add_spec(one).add_spec(one).add_req(one)
}

/// A rectangle, given by its four vertices in order round the boundary and
/// the coordinate system in which their components are to be read.
pub struct Rectangle<T> {
    coords: Coordinates,
    pos: Vec<Point<T>>,
}

impl<T> Rectangle<T> {
    #[verifier::type_invariant]
    spec fn has_four_vertices(&self) -> bool {
        self.pos@.len() == 4
    }

    /// The four vertices, as they were given.
    pub closed spec fn vertices(&self) -> Seq<Point<T>> {
        self.pos@
    }

    /// The coordinate system of the vertices.
    pub closed spec fn system(&self) -> Coordinates {
        self.coords
    }
}

impl<T: Math<T> + Copy> Rectangle<T> {
    /// The four edges between the vertices `v`, read in system `s`, after
    /// the vertices have been re-expressed in Cartesian coordinates.
    pub open spec fn edges(s: Coordinates, v: Seq<Point<T>>) -> Seq<Wector<T>> {
        lengths_spec(parameterization_spec(Coordinates::Cartesian, s, v))
    }

    /// Whether the edges between the vertices `v` can be computed.
    pub open spec fn edges_req(s: Coordinates, v: Seq<Point<T>>) -> bool {
        &&& parameterization_req(Coordinates::Cartesian, s, v)
        &&& lengths_req(parameterization_spec(Coordinates::Cartesian, s, v))
    }

    /// Whether the scalar operations of `new` are all defined.
    pub open spec fn new_req(
        a: Point<T>,
        b: Point<T>,
        c: Point<T>,
        d: Point<T>,
        s: Coordinates,
    ) -> bool {
        let e = Self::edges(s, seq![a, b, c, d]);
        &&& Self::edges_req(s, seq![a, b, c, d])
        &&& e[0].cross_req(&e[1])
        &&& e[2].cross_req(&e[3])
    }

    /// The test that `new` applies to the four edges: the first passes the
    /// orthogonality test with the second, the third with the fourth, the
    /// first equals the third and the second equals the fourth.
    pub open spec fn accepts(
        a: Point<T>,
        b: Point<T>,
        c: Point<T>,
        d: Point<T>,
        s: Coordinates,
    ) -> bool {
        let e = Self::edges(s, seq![a, b, c, d]);
        &&& e[0].is_orthogonal_to_spec(&e[1])
        &&& e[2].is_orthogonal_to_spec(&e[3])
        &&& e[0].eq_spec(&e[2])
        &&& e[1].eq_spec(&e[3])
    }

    /// Builds a rectangle from four vertices, or fails with `NonOrthogonal`
    /// where the edges do not pass the test of `accepts`.
    pub fn new(a: Point<T>, b: Point<T>, c: Point<T>, d: Point<T>, s: Coordinates) -> (r: Result<
        Rectangle<T>,
        PolygonError,
    >)
        requires
            Self::new_req(a, b, c, d, s),
        ensures
            T::obeys_eq_spec() ==> (r is Ok <==> Self::accepts(a, b, c, d, s)),
            r matches Ok(rect) ==> rect.vertices() == seq![a, b, c, d] && rect.system() == s,
            r matches Err(e) ==> e == PolygonError::NonOrthogonal,
    {
        let pos = vec![a, b, c, d];
        let e = lengths(parameterization(Coordinates::Cartesian, s, &pos));
        if e[0].is_orthogonal_to(&e[1]) && e[2].is_orthogonal_to(&e[3]) && e[0] == e[2] && e[1]
            == e[3] {
            Ok(Rectangle { coords: s, pos })
        } else {
            Err(PolygonError::NonOrthogonal)
        }
    }

    /// Whether `segments` can be computed.
    pub open spec fn segments_req(&self) -> bool {
        Self::edges_req(self.system(), self.vertices())
    }

    /// The four edges between the Cartesian vertices.
    pub open spec fn segments_spec(&self) -> Seq<Wector<T>> {
        Self::edges(self.system(), self.vertices())
    }

    /// The vertices in Cartesian coordinates.
    pub open spec fn cartesian_vertices(&self) -> Seq<Point<T>> {
        parameterization_spec(Coordinates::Cartesian, self.system(), self.vertices())
    }

    /// The four edge vectors, in Cartesian coordinates.
    pub fn segments(&self) -> (r: Vec<Wector<T>>)
        requires
            self.segments_req(),
        ensures
            r@ == self.segments_spec(),
            r@.len() == 4,
    {
        proof {
            use_type_invariant(self);
        }
        lengths(parameterization(Coordinates::Cartesian, self.coords, &self.pos))
    }

    /// Whether the scalar operations of `ratio` are all defined.
    pub open spec fn ratio_req(&self, lxw: bool) -> bool {
        let segs = self.segments_spec();
        &&& self.segments_req()
        &&& segs[0].norm_req()
        &&& segs[1].norm_req()
        &&& if lxw {
            segs[0].norm_spec().div_req(segs[1].norm_spec())
        } else {
            segs[1].norm_spec().div_req(segs[0].norm_spec())
        }
    }

    /// The length of the first edge over that of the second where `lxw`
    /// holds, the inverse where it does not.
    pub open spec fn ratio_spec(&self, lxw: bool) -> T {
        let segs = self.segments_spec();
        if lxw {
            segs[0].norm_spec().div_spec(segs[1].norm_spec())
        } else {
            segs[1].norm_spec().div_spec(segs[0].norm_spec())
        }
    }

    /// The ratio of the lengths of the first two edges.
    pub fn ratio(&self, lxw: bool) -> (r: T)
        requires
            self.ratio_req(lxw),
        ensures
            r == self.ratio_spec(lxw),
    {
        let segs = self.segments();
        if lxw {
            segs[0].norm() / segs[1].norm()
        } else {
            segs[1].norm() / segs[0].norm()
        }
    }
}

impl<T: Math<T> + Copy> Polygon for Rectangle<T> {
    type Out = T;

    open spec fn area_req(&self) -> bool {
        let segs = self.segments_spec();
        &&& self.segments_req()
        &&& segs[0].cross_req(&segs[1])
        &&& segs[0].cross_spec(&segs[1]).norm_req()
    }

    /// The length of the cross product of the first two edges.
    open spec fn area_spec(&self) -> T {
        let segs = self.segments_spec();
        segs[0].cross_spec(&segs[1]).norm_spec()
    }

    open spec fn perimeter_req(&self) -> bool {
        let segs = self.segments_spec();
        let zero = T::zero_spec();
        &&& self.segments_req()
        &&& segs[0].norm_req()
        &&& segs[1].norm_req()
        &&& segs[2].norm_req()
        &&& segs[3].norm_req()
        &&& zero.add_req(segs[0].norm_spec())
        &&& zero.add_spec(segs[0].norm_spec()).add_req(segs[1].norm_spec())
        &&& zero.add_spec(segs[0].norm_spec()).add_spec(segs[1].norm_spec()).add_req(
            segs[2].norm_spec(),
        )
        &&& zero.add_spec(segs[0].norm_spec()).add_spec(segs[1].norm_spec()).add_spec(
            segs[2].norm_spec(),
        ).add_req(segs[3].norm_spec())
    }

    /// The lengths of the four edges, added one after the other to zero.
    open spec fn perimeter_spec(&self) -> T {
        let segs = self.segments_spec();
        T::zero_spec().add_spec(segs[0].norm_spec()).add_spec(segs[1].norm_spec()).add_spec(
            segs[2].norm_spec(),
        ).add_spec(segs[3].norm_spec())
    }

    open spec fn centroid_req(&self) -> bool {
        let pos = self.cartesian_vertices();
        let origin = Point::<T>::zero_spec();
        &&& parameterization_req(Coordinates::Cartesian, self.system(), self.vertices())
        &&& four_req::<T>()
        &&& origin.add_req(pos[0])
        &&& origin.add_spec(pos[0]).add_req(pos[1])
        &&& origin.add_spec(pos[0]).add_spec(pos[1]).add_req(pos[2])
        &&& origin.add_spec(pos[0]).add_spec(pos[1]).add_spec(pos[2]).add_req(pos[3])
        &&& origin.add_spec(pos[0]).add_spec(pos[1]).add_spec(pos[2]).add_spec(
            pos[3],
        ).div_by_req(four_spec::<T>())
    }

    /// The Cartesian vertices, added one after the other to the origin, and
    /// the sum divided by four.
    open spec fn centroid_spec(&self) -> Point<T> {
        let pos = self.cartesian_vertices();
        Point::<T>::zero_spec().add_spec(pos[0]).add_spec(pos[1]).add_spec(pos[2]).add_spec(
            pos[3],
        ).div_by_spec(four_spec::<T>())
    }

    open spec fn normal_req(&self) -> bool {
        let segs = self.segments_spec();
        &&& self.segments_req()
        &&& segs[0].cross_req(&segs[1])
        &&& segs[0].cross_spec(&segs[1]).unit_req()
    }

    /// The unit vector along the cross product of the first two edges.
    open spec fn normal_spec(&self) -> Wector<T> {
        let segs = self.segments_spec();
        segs[0].cross_spec(&segs[1]).unit_spec()
    }

    fn area(&self) -> (r: T) {
        let segs = self.segments();
        segs[0].cross(&segs[1]).norm()
    }

    fn perimeter(&self) -> (r: T) {
        let segs = self.segments();
        T::zero() + segs[0].norm() + segs[1].norm() + segs[2].norm() + segs[3].norm()
    }

    fn centroid(&self) -> (r: Point<T>) {
        proof {
                        use_type_invariant(self);
        }
        let four = T::zero() + T::one() + T::one() + T::one() + T::one();
        let pos = parameterization(Coordinates::Cartesian, self.coords, &self.pos);
        (Point::<T>::zero() + pos[0] + pos[1] + pos[2] + pos[3]).div_by(&four)
    }

    fn normal(&self) -> (r: Wector<T>) {
        let segs = self.segments();
        let cross = segs[0].cross(&segs[1]);
        cross.unit()
    }
}

/// A circle, given by its centre, its radius and the normal of the plane it
/// lies in.
pub struct Circle<T> {
    coords: Coordinates,
    position: Wector<T>,
    radius: T,
    normal: Wector<T>,
}

impl<T> Circle<T> {
    /// The coordinate system of the centre.
    pub closed spec fn system(&self) -> Coordinates {
        self.coords
    }

    /// The centre, as it was given.
    pub closed spec fn center(&self) -> Wector<T> {
        self.position
    }

    /// The radius, as it was given.
    pub closed spec fn radius_spec(&self) -> T {
        self.radius
    }

    /// The normal of the circle's plane, as it was given.
    pub closed spec fn plane_normal(&self) -> Wector<T> {
        self.normal
    }
}

impl<T: Math<T> + Copy> Circle<T> {
    /// Builds a circle.  Nothing is checked: the radius may be zero or
    /// negative, and the normal is stored as given, whatever its length.
    pub fn new(s: Coordinates, p: Wector<T>, r: T, n: Wector<T>) -> (c: Circle<T>)
        ensures
            c.system() == s,
            c.center() == p,
            c.radius_spec() == r,
            c.plane_normal() == n,
    {
        Circle { coords: s, position: p, radius: r, normal: n }
    }

    pub fn radius(&self) -> (r: T)
        ensures
            r == self.radius_spec(),
    {
        self.radius
    }
}

impl<T: Math<T> + Copy> Polygon for Circle<T> {
    type Out = T;

    open spec fn area_req(&self) -> bool {
        &&& obeys_arithmetic::<T>()
        &&& T::pi_spec().mul_req(self.radius_spec())
        &&& T::pi_spec().mul_spec(self.radius_spec()).mul_req(self.radius_spec())
    }

    /// `pi * r * r`, multiplied from the left.
    open spec fn area_spec(&self) -> T {
        T::pi_spec().mul_spec(self.radius_spec()).mul_spec(self.radius_spec())
    }

    open spec fn perimeter_req(&self) -> bool {
        &&& obeys_arithmetic::<T>()
        &&& T::one_spec().add_req(T::one_spec())
        &&& two_spec::<T>().mul_req(T::pi_spec())
        &&& two_spec::<T>().mul_spec(T::pi_spec()).mul_req(self.radius_spec())
    }

    /// `2 * pi * r`, multiplied from the left.
    open spec fn perimeter_spec(&self) -> T {
        two_spec::<T>().mul_spec(T::pi_spec()).mul_spec(self.radius_spec())
    }

    open spec fn centroid_req(&self) -> bool {
        true
    }

    /// The centre, as it was given: it is not re-expressed.
    open spec fn centroid_spec(&self) -> Point<T> {
        Point { x: self.center().x, y: self.center().y, z: self.center().z }
    }

    open spec fn normal_req(&self) -> bool {
        true
    }

    /// The normal that the circle was built with, unchanged.
    open spec fn normal_spec(&self) -> Wector<T> {
        self.plane_normal()
    }

    fn area(&self) -> (r: T) {
        T::pi() * self.radius() * self.radius()
    }

    fn perimeter(&self) -> (r: T) {
        (T::one() + T::one()) * T::pi() * self.radius()
    }

    fn centroid(&self) -> (r: Point<T>) {
        Point::new(self.position.x, self.position.y, self.position.z)
    }

    fn normal(&self) -> (r: Wector<T>) {
        self.normal
    }
}

/// Any of the supported shapes.
pub enum Shape<T> {
    Triangle(Triangle<T>),
    Rectangle(Rectangle<T>),
    Circle(Circle<T>),
}

impl<T: Math<T> + Copy> Polygon for Shape<T> {
    type Out = T;

    open spec fn area_req(&self) -> bool {
        match self {
            Shape::Triangle(t) => t.area_req(),
            Shape::Rectangle(r) => r.area_req(),
            Shape::Circle(c) => c.area_req(),
        }
    }

    open spec fn area_spec(&self) -> T {
        match self {
            Shape::Triangle(t) => t.area_spec(),
            Shape::Rectangle(r) => r.area_spec(),
            Shape::Circle(c) => c.area_spec(),
        }
    }

    open spec fn perimeter_req(&self) -> bool {
        match self {
            Shape::Triangle(t) => t.perimeter_req(),
            Shape::Rectangle(r) => r.perimeter_req(),
            Shape::Circle(c) => c.perimeter_req(),
        }
    }

    open spec fn perimeter_spec(&self) -> T {
        match self {
            Shape::Triangle(t) => t.perimeter_spec(),
            Shape::Rectangle(r) => r.perimeter_spec(),
            Shape::Circle(c) => c.perimeter_spec(),
        }
    }

    open spec fn centroid_req(&self) -> bool {
        match self {
            Shape::Triangle(t) => t.centroid_req(),
            Shape::Rectangle(r) => r.centroid_req(),
            Shape::Circle(c) => c.centroid_req(),
        }
    }

    open spec fn centroid_spec(&self) -> Point<T> {
        match self {
            Shape::Triangle(t) => t.centroid_spec(),
            Shape::Rectangle(r) => r.centroid_spec(),
            Shape::Circle(c) => c.centroid_spec(),
        }
    }

    open spec fn normal_req(&self) -> bool {
        match self {
            Shape::Triangle(t) => t.normal_req(),
            Shape::Rectangle(r) => r.normal_req(),
            Shape::Circle(c) => c.normal_req(),
        }
    }

    open spec fn normal_spec(&self) -> Wector<T> {
        match self {
            Shape::Triangle(t) => t.normal_spec(),
            Shape::Rectangle(r) => r.normal_spec(),
            Shape::Circle(c) => c.normal_spec(),
        }
    }

    fn area(&self) -> (r: T) {
        match self {
            Shape::Triangle(t) => t.area(),
            Shape::Rectangle(r) => r.area(),
            Shape::Circle(c) => c.area(),
        }
    }

    fn perimeter(&self) -> (r: T) {
        match self {
            Shape::Triangle(t) => t.perimeter(),
            Shape::Rectangle(r) => r.perimeter(),
            Shape::Circle(c) => c.perimeter(),
        }
    }

    fn centroid(&self) -> (r: Point<T>) {
        match self {
            Shape::Triangle(t) => t.centroid(),
            Shape::Rectangle(r) => r.centroid(),
            Shape::Circle(c) => c.centroid(),
        }
    }

    fn normal(&self) -> (r: Wector<T>) {
        Shape::normal(self)
    }
}

impl<T: Math<T> + Copy> Shape<T> {
    /// The unit normal of whichever shape this is.
    pub fn normal(&self) -> (r: Wector<T>)
        requires
            self.normal_req(),
        ensures
            r == self.normal_spec(),
    {
        match self {
            Shape::Triangle(t) => t.normal(),
            Shape::Rectangle(r) => r.normal(),
            Shape::Circle(c) => c.normal(),
        }
    }
}

} // verus!
