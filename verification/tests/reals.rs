use std::ops::{Add, Div, Mul, Neg, Sub};
use std::f64::consts::{FRAC_PI_2, PI};
use wector_geometry::geometry::{parameterization, Circle, Rectangle, Shape, Triangle};
use wector_geometry::mathtraits::{
    Arithmetic, Components, Math, One, Polygon, PolygonError, Sign, Signed, SquareRoot,
    Trigonometry, Zero,
};
use wector_geometry::wectors::Coordinates::{Cartesian, Cylindrical, Spherical};
use wector_geometry::wectors::{convert, Coordinates, Point, Wector};
use wector_geometry::xsection::XSection;

/// A double-precision scalar.
#[derive(Clone, Copy, Debug, PartialEq, PartialOrd)]
struct Real(f64);

impl Add for Real {
    type Output = Real;
    fn add(self, other: Real) -> Real {
        Real(self.0 + other.0)
    }
}

impl Sub for Real {
    type Output = Real;
    fn sub(self, other: Real) -> Real {
        Real(self.0 - other.0)
    }
}

impl Mul for Real {
    type Output = Real;
    fn mul(self, other: Real) -> Real {
        Real(self.0 * other.0)
    }
}

impl Div for Real {
    type Output = Real;
    fn div(self, other: Real) -> Real {
        Real(self.0 / other.0)
    }
}

impl Neg for Real {
    type Output = Real;
    fn neg(self) -> Real {
        Real(-self.0)
    }
}

impl Arithmetic<Real> for Real {}

impl SquareRoot<Real> for Real {
    fn squareroot(&self) -> Real {
        Real(self.0.sqrt())
    }
}

impl Trigonometry<Real> for Real {
    fn arctangent2(&self, x: Real) -> Real {
        Real(self.0.atan2(x.0))
    }

    fn sine(&self) -> Real {
        Real(self.0.sin())
    }

    fn cosine(&self) -> Real {
        Real(self.0.cos())
    }

    fn tangent(&self) -> Real {
        Real(self.0.tan())
    }

    fn pi() -> Real {
        Real(std::f64::consts::PI)
    }
}

impl Zero for Real {
    type Out = Real;
    fn zero() -> Real {
        Real(0.0)
    }
}

impl One for Real {
    type Out = Real;
    fn one() -> Real {
        Real(1.0)
    }
}

impl Math<Real> for Real {}

impl Signed for Real {
    fn sign(&self) -> Sign {
        Sign::classify(self.0 == 0.0, self.0.is_nan(), self.0.is_sign_negative())
    }
}

fn point(x: f64, y: f64, z: f64) -> Point<Real> {
    Point::new(Real(x), Real(y), Real(z))
}

fn wector(x: f64, y: f64, z: f64) -> Wector<Real> {
    Wector::new(Real(x), Real(y), Real(z))
}

fn close(a: Real, b: f64) -> bool {
    (a.0 - b).abs() <= 1e-12 * (1.0 + b.abs())
}

fn close_point(p: Point<Real>, x: f64, y: f64, z: f64) -> bool {
    close(p.x(), x) && close(p.y(), y) && close(p.z(), z)
}

fn right_triangle() -> Triangle<Real> {
    Triangle::new(
        point(0.0, 0.0, 0.0),
        point(3.0, 0.0, 0.0),
        point(3.0, 4.0, 0.0),
        Cartesian,
    )
}

#[test]
fn tests_create_new_wectors() {
    let p1 = Point::new(Real(10f64), Real(3.0), Real(3.0));
    let p2 = Point::new(Real(7f64), Real(3.0), Real(-2.0));
    assert_eq!(p1.y(), p2.y());
    let w1 = Wector::new(Real(-3f64), Real(0.0), Real(-5.0));
    let w2 = Wector::from_point(&(p2.clone() - p1.clone()));
    let w3 = Wector::from_pair(p1.clone(), p2.clone());
    let w4 = Wector::from_pair(p2.clone(), p1.clone());
    assert_eq!(w1, w2);
    assert_eq!(w1, w3);
    assert_eq!(w3, -w4);
}

#[test]
fn tests_wectors_maths() {
    let w1 = Wector::new(Real(3f64), Real(4.0), Real(0.0));
    let w2 = Wector::new(Real(-3f64), Real(4.0), Real(0.0));
    let w3 = Wector::new(Real(1f64), Real(1.0), Real(1.0));

    assert_eq!(w1.dot(&w3), w3.dot(&w1));
    assert_eq!(w1.dot(&w2), Real(-9.0 + 16.0));
}

#[test]
fn coordination() {
    let p0 = Point::new(Real(0.0f64), Real(0.0), Real(0.0));
    let p1 = Point::new(Real(1.0f64), Real(0.0), Real(0.0));

    assert_eq!(Cartesian.into_cylindrical(&p0), p0);
    assert_eq!(Cartesian.into_spherical(&p0), p0);
    assert_eq!(Cylindrical.into_cartesian(&p0), p0);
    assert_eq!(Cylindrical.into_spherical(&p0), p0);
    assert_eq!(Spherical.into_cartesian(&p0), p0);
    assert_eq!(Spherical.into_cylindrical(&p0), p0);

    assert_eq!(Cartesian.into_cylindrical(&p1), p1);
}

#[test]
fn triangle_area() {
    let abc = Triangle::new(
        Point::new(Real(0f64), Real(0.0), Real(0.0)),
        Point::new(Real(3.0), Real(0.0), Real(0.0)),
        Point::new(Real(3.0), Real(4.0), Real(0.0)),
        Coordinates::Cartesian,
    );
    assert_eq!(abc.area(), Real(6.0));
    assert_eq!(abc.perimeter(), Real(12.0));
    assert_eq!(
        abc.centroid(),
        Point::new(Real(2.0f64), Real(4.0 / 3.0), Real(0.0))
    );
}

#[test]
fn cylindrical_into_cartesian() {
    assert_eq!(
        Cylindrical.into_cartesian(&point(2.0, 0.0, 5.0)),
        point(2.0, 0.0, 5.0)
    );
    let p = Cylindrical.into_cartesian(&point(2.0, FRAC_PI_2, 5.0));
    assert_eq!(
        p,
        point(2.0 * FRAC_PI_2.cos(), 2.0 * FRAC_PI_2.sin(), 5.0)
    );
    assert!(close_point(p, 0.0, 2.0, 5.0));
}

#[test]
fn spherical_into_cartesian() {
    assert_eq!(
        Spherical.into_cartesian(&point(2.0, 0.0, 0.0)),
        point(0.0, 0.0, 2.0)
    );
    let (rho, theta, phi) = (2.0f64, 0.5f64, 1.25f64);
    assert_eq!(
        Spherical.into_cartesian(&point(rho, theta, phi)),
        point(
            rho * phi.sin() * theta.cos(),
            rho * phi.sin() * theta.sin(),
            rho * phi.cos()
        )
    );
    assert!(close_point(
        Spherical.into_cartesian(&point(2.0, FRAC_PI_2, FRAC_PI_2)),
        0.0,
        2.0,
        0.0
    ));
}

#[test]
fn cartesian_into_cylindrical() {
    assert_eq!(
        Cartesian.into_cylindrical(&point(3.0, 4.0, 5.0)),
        point(5.0, 4.0f64.atan2(3.0), 5.0)
    );
    assert_eq!(
        Cartesian.into_cylindrical(&point(0.0, 2.0, -1.0)),
        point(2.0, FRAC_PI_2, -1.0)
    );
    assert_eq!(
        Cartesian.into_cylindrical(&point(-2.0, 0.0, 0.0)),
        point(2.0, PI, 0.0)
    );
}

#[test]
fn spherical_into_cylindrical() {
    assert_eq!(
        Spherical.into_cylindrical(&point(2.0, 1.0, 0.0)),
        point(0.0, 1.0, 2.0)
    );
    let (rho, theta, phi) = (3.0f64, -0.75f64, 0.5f64);
    assert_eq!(
        Spherical.into_cylindrical(&point(rho, theta, phi)),
        point(rho * phi.sin(), theta, rho * phi.cos())
    );
}

#[test]
fn cartesian_into_spherical() {
    assert_eq!(
        Cartesian.into_spherical(&point(0.0, 0.0, 2.0)),
        point(2.0, 0.0, 0.0)
    );
    assert_eq!(
        Cartesian.into_spherical(&point(0.0, 3.0, 0.0)),
        point(3.0, FRAC_PI_2, FRAC_PI_2)
    );
    assert_eq!(
        Cartesian.into_spherical(&point(3.0, 4.0, 12.0)),
        point(13.0, 4.0f64.atan2(3.0), 5.0f64.atan2(12.0))
    );
}

#[test]
fn cylindrical_into_spherical() {
    assert_eq!(
        Cylindrical.into_spherical(&point(3.0, 1.0, 4.0)),
        point(5.0, 1.0, 3.0f64.atan2(4.0))
    );
    assert_eq!(
        Cylindrical.into_spherical(&point(2.0, -1.0, 0.0)),
        point(2.0, -1.0, FRAC_PI_2)
    );
}

#[test]
fn conversion_into_the_same_system_changes_nothing() {
    let p = point(1.5, -2.25, 1.0e-3);
    assert_eq!(Cartesian.into_cartesian(&p), p);
    assert_eq!(Cylindrical.into_cylindrical(&p), p);
    assert_eq!(Spherical.into_spherical(&p), p);
    for system in [Cartesian, Cylindrical, Spherical] {
        assert_eq!(convert(system, system, &p), p);
    }
    let odd = point(f64::INFINITY, -0.0, f64::MAX);
    assert_eq!(convert(Spherical, Spherical, &odd), odd);
    assert!(convert(Cylindrical, Cylindrical, &odd).y().0.is_sign_negative());
}

#[test]
fn convert_selects_by_target() {
    let p = point(2.0, 0.75, 1.25);
    for from in [Cartesian, Cylindrical, Spherical] {
        assert_eq!(convert(from, Cartesian, &p), from.into_cartesian(&p));
        assert_eq!(convert(from, Cylindrical, &p), from.into_cylindrical(&p));
        assert_eq!(convert(from, Spherical, &p), from.into_spherical(&p));
    }
}

#[test]
fn conversion_works_on_vectors_too() {
    assert_eq!(
        Cartesian.into_cylindrical(&wector(3.0, 4.0, 5.0)),
        wector(5.0, 4.0f64.atan2(3.0), 5.0)
    );
    assert_eq!(
        Spherical.into_cartesian(&wector(2.0, 0.0, 0.0)),
        wector(0.0, 0.0, 2.0)
    );
}

#[test]
fn unit_axis_there_and_back() {
    let p1 = point(1.0, 0.0, 0.0);
    let there = Cartesian.into_cylindrical(&p1);
    assert_eq!(Cylindrical.into_cartesian(&there), p1);
}

#[test]
fn round_trips_return_within_tolerance() {
    let p = point(1.0, 2.0, 3.0);
    for via in [Cylindrical, Spherical] {
        let back = convert(via, Cartesian, &convert(Cartesian, via, &p));
        assert!(close_point(back, 1.0, 2.0, 3.0));
    }
    let c = point(2.0, 0.5, -1.0);
    let back = convert(Spherical, Cylindrical, &convert(Cylindrical, Spherical, &c));
    assert!(close_point(back, 2.0, 0.5, -1.0));
    let s = point(2.0, 0.5, 1.0);
    let back = convert(Cartesian, Spherical, &convert(Spherical, Cartesian, &s));
    assert!(close_point(back, 2.0, 0.5, 1.0));
}

#[test]
fn norm_is_the_euclidean_length() {
    assert_eq!(wector(3.0, 4.0, 0.0).norm(), Real(5.0));
    assert_eq!(wector(2.0, -3.0, 6.0).norm(), Real(7.0));
    assert_eq!(wector(0.0, 0.0, 0.0).norm(), Real(0.0));
}

#[test]
fn unit_divides_by_the_length() {
    assert_eq!(wector(3.0, 4.0, 0.0).unit(), wector(0.6, 0.8, 0.0));
    assert_eq!(wector(0.0, 0.0, -7.0).unit(), wector(0.0, 0.0, -1.0));
    let lost = wector(0.0, 0.0, 0.0).unit();
    assert!(lost.x().0.is_nan() && lost.y().0.is_nan() && lost.z().0.is_nan());
}

#[test]
fn orthogonality_test_is_exact() {
    let v = wector(1.0, 2.0, 3.0);
    assert!(v.is_orthogonal_to(&wector(2.0, 4.0, 6.0)));
    assert!(v.is_orthogonal_to(&wector(-1.0, -2.0, -3.0)));
    assert!(!v.is_orthogonal_to(&wector(2.0, 4.0, 6.000000000000001)));
    assert!(!wector(1.0, 0.0, 0.0).is_orthogonal_to(&wector(0.0, 1.0, 0.0)));
}

#[test]
fn division_by_zero_is_left_to_the_scalar() {
    let p = point(1.0, -1.0, 0.0).div_by(&Real(0.0));
    assert_eq!(p.x(), Real(f64::INFINITY));
    assert_eq!(p.y(), Real(f64::NEG_INFINITY));
    assert!(p.z().0.is_nan());
}

#[test]
fn sign_of_a_real() {
    assert_eq!(Real(-2.5).sign(), Sign::Negative);
    assert_eq!(Real(2.5).sign(), Sign::Positive);
    assert_eq!(Real(0.0).sign(), Sign::Zero);
    assert_eq!(Real(-0.0).sign(), Sign::Zero);
    assert_eq!(Real(f64::NAN).sign(), Sign::Zero);
    assert_eq!(Real(-f64::NAN).sign(), Sign::Zero);
    assert_eq!(Real(f64::NEG_INFINITY).sign(), Sign::Negative);
    assert_eq!(Real(f64::INFINITY).sign(), Sign::Positive);
}

#[test]
fn parameterization_converts_every_point() {
    let given = vec![point(3.0, 4.0, 5.0), point(0.0, 2.0, -1.0)];
    assert_eq!(
        parameterization(Cylindrical, Cartesian, &given),
        vec![
            point(5.0, 4.0f64.atan2(3.0), 5.0),
            point(2.0, FRAC_PI_2, -1.0)
        ]
    );
    assert_eq!(parameterization(Spherical, Spherical, &given), given);
    assert_eq!(
        parameterization(Cartesian, Spherical, &Vec::<Point<Real>>::new()),
        vec![]
    );
}

#[test]
fn triangle_segments_and_normal() {
    let abc = right_triangle();
    assert_eq!(
        abc.segments(),
        vec![
            wector(3.0, 0.0, 0.0),
            wector(0.0, 4.0, 0.0),
            wector(-3.0, -4.0, 0.0)
        ]
    );
    assert_eq!(abc.normal(), wector(0.0, 0.0, 1.0));
}

#[test]
fn triangle_normal_follows_the_vertex_order() {
    let acb = Triangle::new(
        point(0.0, 0.0, 0.0),
        point(3.0, 4.0, 0.0),
        point(3.0, 0.0, 0.0),
        Cartesian,
    );
    assert_eq!(acb.normal(), wector(0.0, 0.0, -1.0));
    assert_eq!(acb.area(), Real(6.0));
}

#[test]
fn triangle_given_in_cylindrical_coordinates() {
    let theta = 4.0f64.atan2(3.0);
    let abc = Triangle::new(
        point(0.0, 0.0, 0.0),
        point(3.0, 0.0, 0.0),
        point(5.0, theta, 0.0),
        Cylindrical,
    );
    assert!(close(abc.area(), 6.0));
    assert!(close(abc.perimeter(), 12.0));
    assert!(close_point(abc.centroid(), 2.0, 4.0 / 3.0, 0.0));
    let there = abc.deparm(Cartesian);
    assert_eq!(there.len(), 3);
    assert!(close_point(there[2], 3.0, 4.0, 0.0));
    assert_eq!(
        abc.deparm(Cylindrical),
        vec![
            point(0.0, 0.0, 0.0),
            point(3.0, 0.0, 0.0),
            point(5.0, theta, 0.0)
        ]
    );
}

#[test]
fn triangle_reparm_reads_the_vertices_in_the_given_system() {
    let abc = Triangle::new(
        point(3.0, 4.0, 5.0),
        point(0.0, 2.0, -1.0),
        point(0.0, 0.0, 0.0),
        Cylindrical,
    );
    assert_eq!(
        abc.reparm(Cartesian),
        vec![
            point(5.0, 4.0f64.atan2(3.0), 5.0),
            point(2.0, FRAC_PI_2, -1.0),
            point(0.0, 0.0, 0.0)
        ]
    );
    assert_eq!(
        abc.reparm(Cylindrical),
        vec![
            point(3.0, 4.0, 5.0),
            point(0.0, 2.0, -1.0),
            point(0.0, 0.0, 0.0)
        ]
    );
}

#[test]
fn collinear_triangle_is_built_and_has_no_area() {
    let flat = Triangle::new(
        point(0.0, 0.0, 0.0),
        point(1.0, 1.0, 1.0),
        point(2.0, 2.0, 2.0),
        Cartesian,
    );
    assert_eq!(flat.area(), Real(0.0));
}

#[test]
fn rectangle_rejects_edges_that_fail_the_test() {
    let skewed = Rectangle::new(
        point(0.0, 0.0, 0.0),
        point(2.0, 0.0, 0.0),
        point(3.0, 3.0, 0.0),
        point(0.0, 3.0, 0.0),
        Cartesian,
    );
    assert!(matches!(skewed, Err(PolygonError::NonOrthogonal)));
    let unequal = Rectangle::new(
        point(0.0, 0.0, 0.0),
        point(2.0, 0.0, 0.0),
        point(0.0, 0.0, 0.0),
        point(4.0, 0.0, 0.0),
        Cartesian,
    );
    assert!(matches!(unequal, Err(PolygonError::NonOrthogonal)));
}

#[test]
fn rectangle_test_is_a_zero_cross_product() {
    // The orthogonality test asks for a cross product of zero, which edges
    // that meet at a right angle do not have.
    let upright = Rectangle::new(
        point(0.0, 0.0, 0.0),
        point(2.0, 0.0, 0.0),
        point(2.0, 3.0, 0.0),
        point(0.0, 3.0, 0.0),
        Cartesian,
    );
    assert!(matches!(upright, Err(PolygonError::NonOrthogonal)));
}

#[test]
fn rectangle_that_passes_the_test() {
    let built = Rectangle::new(
        point(1.0, 1.0, 1.0),
        point(4.0, 5.0, 1.0),
        point(1.0, 1.0, 1.0),
        point(4.0, 5.0, 1.0),
        Cartesian,
    );
    let r = match built {
        Ok(r) => r,
        Err(e) => panic!("rejected: {:?}", e),
    };
    assert_eq!(
        r.segments(),
        vec![
            wector(3.0, 4.0, 0.0),
            wector(-3.0, -4.0, 0.0),
            wector(3.0, 4.0, 0.0),
            wector(-3.0, -4.0, 0.0)
        ]
    );
    assert_eq!(r.area(), Real(0.0));
    assert_eq!(r.perimeter(), Real(20.0));
    assert_eq!(r.centroid(), point(2.5, 3.0, 1.0));
    assert_eq!(r.ratio(true), Real(1.0));
    assert_eq!(r.ratio(false), Real(1.0));
    let n = r.normal();
    assert!(n.x().0.is_nan() && n.y().0.is_nan() && n.z().0.is_nan());
}

#[test]
fn rectangle_of_one_point() {
    let built = Rectangle::new(
        point(2.0, 2.0, 2.0),
        point(2.0, 2.0, 2.0),
        point(2.0, 2.0, 2.0),
        point(2.0, 2.0, 2.0),
        Cartesian,
    );
    let r = match built {
        Ok(r) => r,
        Err(e) => panic!("rejected: {:?}", e),
    };
    let width = r.segments()[0].norm();
    let height = r.segments()[1].norm();
    assert_eq!(r.area(), width * height);
    assert_eq!(r.centroid(), point(2.0, 2.0, 2.0));
}

#[test]
fn rectangle_edges_are_taken_in_cartesian_coordinates() {
    // In cylindrical coordinates these are the points (0, 2, 0) and
    // (0, -2, 0), each given twice.
    let built = Rectangle::new(
        point(2.0, FRAC_PI_2, 0.0),
        point(2.0, -FRAC_PI_2, 0.0),
        point(2.0, FRAC_PI_2, 0.0),
        point(2.0, -FRAC_PI_2, 0.0),
        Cylindrical,
    );
    let r = match built {
        Ok(r) => r,
        Err(e) => panic!("rejected: {:?}", e),
    };
    assert!(close(r.perimeter(), 16.0));
    assert!(close_point(r.centroid(), 0.0, 0.0, 0.0));
}

#[test]
fn circle_measurements() {
    let c = Circle::new(
        Cartesian,
        wector(1.0, 2.0, 3.0),
        Real(2.0),
        wector(0.0, 0.0, 1.0),
    );
    assert_eq!(c.radius(), Real(2.0));
    assert_eq!(c.area(), Real(PI * 2.0 * 2.0));
    assert_eq!(c.perimeter(), Real(2.0 * PI * 2.0));
    assert!(close(c.area(), 12.566370614359172));
    assert!(close(c.perimeter(), 12.566370614359172));
    assert_eq!(c.centroid(), point(1.0, 2.0, 3.0));
    assert_eq!(c.normal(), wector(0.0, 0.0, 1.0));
}

#[test]
fn circle_area_and_perimeter_for_several_radii() {
    for r in [0.0f64, 0.5, 1.0, 3.0, 1.0e6] {
        let c = Circle::new(
            Spherical,
            wector(0.0, 0.0, 0.0),
            Real(r),
            wector(1.0, 0.0, 0.0),
        );
        assert!(close(c.area(), PI * r * r));
        assert!(close(c.perimeter(), 2.0 * PI * r));
    }
}

#[test]
fn circle_keeps_what_it_is_given() {
    let c = Circle::new(
        Cylindrical,
        wector(1.0, 2.0, 3.0),
        Real(-1.0),
        wector(0.0, 3.0, 4.0),
    );
    assert_eq!(c.radius(), Real(-1.0));
    assert_eq!(c.normal(), wector(0.0, 3.0, 4.0));
    assert_eq!(c.centroid(), point(1.0, 2.0, 3.0));
    assert_eq!(c.perimeter(), Real(2.0 * PI * -1.0));
}

#[test]
fn shape_hands_on_to_its_variant() {
    let t = Shape::Triangle(right_triangle());
    assert_eq!(t.area(), Real(6.0));
    assert_eq!(t.perimeter(), Real(12.0));
    assert_eq!(t.centroid(), point(2.0, 4.0 / 3.0, 0.0));
    assert_eq!(t.normal(), wector(0.0, 0.0, 1.0));
    assert_eq!(Polygon::normal(&t), wector(0.0, 0.0, 1.0));

    let c = Shape::Circle(Circle::new(
        Cartesian,
        wector(1.0, 2.0, 3.0),
        Real(2.0),
        wector(0.0, 1.0, 0.0),
    ));
    assert_eq!(c.area(), Real(PI * 2.0 * 2.0));
    assert_eq!(c.perimeter(), Real(2.0 * PI * 2.0));
    assert_eq!(c.centroid(), point(1.0, 2.0, 3.0));
    assert_eq!(c.normal(), wector(0.0, 1.0, 0.0));

    let flat = Rectangle::new(
        point(0.0, 0.0, 0.0),
        point(0.0, 0.0, 2.0),
        point(0.0, 0.0, 0.0),
        point(0.0, 0.0, 2.0),
        Cartesian,
    );
    let r = match flat {
        Ok(r) => Shape::Rectangle(r),
        Err(e) => panic!("rejected: {:?}", e),
    };
    assert_eq!(r.area(), Real(0.0));
    assert_eq!(r.perimeter(), Real(8.0));
    assert_eq!(r.centroid(), point(0.0, 0.0, 1.0));
    assert!(r.normal().z().0.is_nan());
}

fn disc(radius: f64, normal: Wector<Real>) -> Shape<Real> {
    Shape::Circle(Circle::new(
        Cartesian,
        wector(0.0, 0.0, 0.0),
        Real(radius),
        normal,
    ))
}

#[test]
fn cross_section_accepts_normals_along_the_axis() {
    let axis = wector(0.0, 0.0, 1.0);
    let parts = vec![
        disc(1.0, wector(0.0, 0.0, 1.0)),
        disc(2.0, wector(0.0, 0.0, -1.0)),
        Shape::Triangle(right_triangle()),
    ];
    assert!(XSection::normals_match(&axis, &parts));
    assert!(XSection::normals_match(&axis, &Vec::new()));
    assert!(!XSection::normals_match(
        &axis,
        &vec![disc(1.0, axis), disc(1.0, wector(0.0, 1.0, 0.0))]
    ));
    assert!(!XSection::normals_match(
        &axis,
        &vec![disc(1.0, wector(0.0, 0.0, 2.0))]
    ));
}

#[test]
fn cross_section_area_is_the_sum() {
    let axis = wector(0.0, 0.0, 1.0);
    let parts = vec![
        disc(1.0, axis),
        Shape::Triangle(right_triangle()),
        disc(2.0, -axis),
    ];
    assert!(XSection::normals_match(&axis, &parts));
    let section = XSection::new(axis, parts);
    assert_eq!(
        section.area(),
        Real(0.0 + PI * 1.0 * 1.0 + 6.0 + PI * 2.0 * 2.0)
    );
    let empty: XSection<Real> = XSection::new(axis, Vec::new());
    assert_eq!(empty.area(), Real(0.0));
}
