use ray_tracer_challenge::canvas::{encode_png, to_rgba, Canvas, EncodeError};
use ray_tracer_challenge::color::Color;
use ray_tracer_challenge::intersection::{hit, hit_index, Intersection};
use ray_tracer_challenge::material::{Material, PointLight};
use ray_tracer_challenge::matrix::{Matrix, NotInvertible};
use ray_tracer_challenge::ray::Ray;
use ray_tracer_challenge::scalar::Scalar;
use ray_tracer_challenge::sphere::{Shape, Sphere};
use ray_tracer_challenge::transform::{transform_factors, Transformation};
use ray_tracer_challenge::vector::{Point, Vector};

fn s(x: f64) -> Scalar {
    Scalar::from_bits(x.to_bits())
}

fn f(x: Scalar) -> f64 {
    f64::from_bits(x.to_bits())
}

fn crossings(found: &[Intersection]) -> Vec<(Scalar, usize)> {
    found.iter().map(|i| (i.distance(), i.shape())).collect()
}

fn parts(m: &Material) -> (Color, [Scalar; 4]) {
    (*m.color(), [m.ambient(), m.diffuse(), m.specular(), m.shininess()])
}

fn color(r: f64, g: f64, b: f64) -> Color {
    Color::new(s(r), s(g), s(b))
}

fn quantize(c: &Color) -> [u8; 3] {
    let level = |x: Scalar| (f(x).clamp(0.0, 1.0) * 255.0).round() as u8;
    [level(c.components()[0]), level(c.components()[1]), level(c.components()[2])]
}

fn samples() -> Vec<f64> {
    vec![
        0.0,
        -0.0,
        1.0,
        -1.0,
        0.5,
        -0.5,
        2.0,
        -2.0,
        1e-310,
        -1e-310,
        5e-324,
        -5e-324,
        1e300,
        -1e300,
        f64::MAX,
        f64::MIN,
        f64::MIN_POSITIVE,
        f64::EPSILON,
        f64::INFINITY,
        f64::NEG_INFINITY,
        f64::NAN,
        -f64::NAN,
        3.5,
        -7.25,
        0.1,
        0.9,
        200.0,
    ]
}

#[test]
fn scalar_keeps_its_pattern() {
    for x in samples() {
        assert_eq!(x.to_bits(), s(x).to_bits());
    }
    assert_eq!(0.0, f(Scalar::zero()));
    assert!(f(Scalar::zero()).is_sign_positive());
    assert_eq!(1.0, f(Scalar::one()));
}

#[test]
fn scalar_classes_agree_with_the_machine() {
    for x in samples() {
        assert_eq!(x.is_nan(), s(x).is_nan());
        assert_eq!(x == 0.0, s(x).is_zero());
    }
}

#[test]
fn scalar_comparisons_agree_with_the_machine() {
    for a in samples() {
        for b in samples() {
            assert_eq!(a < b, s(a).lt(&s(b)), "{a} < {b}");
            assert_eq!(a <= b, s(a).le(&s(b)), "{a} <= {b}");
            assert_eq!(a >= b, s(a).ge(&s(b)), "{a} >= {b}");
        }
    }
}

#[test]
fn scalar_negation_agrees_with_the_machine() {
    for x in samples() {
        assert_eq!((-x).to_bits(), s(x).neg().to_bits());
        assert_eq!(x.to_bits(), s(x).neg().neg().to_bits());
    }
    assert_eq!(-3.5, f(s(3.5).neg()));
    assert!(f(s(0.0).neg()).is_sign_negative());
}

#[test]
fn scalar_min_max_agree_with_the_machine() {
    for a in samples() {
        for b in samples() {
            let low = f(s(a).min(&s(b)));
            let high = f(s(a).max(&s(b)));
            if a.is_nan() && b.is_nan() {
                assert!(low.is_nan() && high.is_nan());
            } else {
                assert_eq!(a.min(b), low, "min({a}, {b})");
                assert_eq!(a.max(b), high, "max({a}, {b})");
            }
        }
    }
    assert_eq!(4.0, f(s(6.0).min(&s(4.0))));
    assert_eq!(6.0, f(s(6.0).max(&s(4.0))));
    assert_eq!(2.0, f(s(f64::NAN).min(&s(2.0))));
    assert_eq!(2.0, f(s(2.0).max(&s(f64::NAN))));
}

#[test]
fn scalar_min_max_keep_both_of_equal_values() {
    let low = s(0.0).min(&s(-0.0));
    let high = s(0.0).max(&s(-0.0));
    assert_eq!(0.0f64.to_bits(), low.to_bits());
    assert_eq!((-0.0f64).to_bits(), high.to_bits());
}

#[test]
fn test_dimensions() {
    let width = 17;
    let height = 19;

    let canvas = Canvas::new(width, height);

    assert_eq!(width, canvas.width());
    assert_eq!(height, canvas.height());
}

#[test]
fn test_set_get_pixel() {
    let mut canvas = Canvas::new(1, 1);
    let red = color(1.0, 0.0, 0.0);

    canvas.set_pixel(0, 0, red);

    assert_eq!(&red, canvas.get_pixel(0, 0));
}

#[test]
fn test_to_rgba() {
    let mut canvas = Canvas::new(2, 2);
    canvas.set_pixel(0, 0, color(1.5, 0.0, 0.0));
    canvas.set_pixel(0, 1, color(0.0, 0.5, 0.0));
    canvas.set_pixel(1, 1, color(-0.5, 0.0, 1.0));

    let levels: Vec<[u8; 3]> = canvas.pixels().iter().map(quantize).collect();

    assert_eq!(
        vec![255, 0,   0,   255,
             0,   0,   0,   255,
             0,   128, 0,   255,
             0,   0,   255, 255],
        to_rgba(&levels));
}

#[test]
fn new_canvas_is_black() {
    let canvas = Canvas::new(3, 2);
    assert_eq!(6, canvas.pixels().len());
    for y in 0..2 {
        for x in 0..3 {
            assert_eq!(&Color::black(), canvas.get_pixel(x, y));
        }
    }
    assert_eq!(0, Canvas::new(0, 5).pixels().len());
    assert_eq!(5, Canvas::new(0, 5).height());
}

#[test]
fn canvas_is_row_major() {
    let mut canvas = Canvas::new(3, 2);
    assert_eq!(0, canvas.index(0, 0));
    assert_eq!(2, canvas.index(2, 0));
    assert_eq!(3, canvas.index(0, 1));
    assert_eq!(5, canvas.index(2, 1));

    canvas.set_pixel(2, 1, Color::white());
    canvas.set_pixel(1, 0, color(0.25, 0.5, 0.75));
    for (i, pixel) in canvas.pixels().iter().enumerate() {
        let expected = match i {
            1 => color(0.25, 0.5, 0.75),
            5 => Color::white(),
            _ => Color::black(),
        };
        assert_eq!(&expected, pixel);
    }
}

#[test]
fn to_rgba_lays_out_four_bytes_per_pixel() {
    assert_eq!(Vec::<u8>::new(), to_rgba(&[]));
    assert_eq!(vec![1, 2, 3, 255], to_rgba(&[[1, 2, 3]]));
    assert_eq!(vec![1, 2, 3, 255, 0, 0, 0, 255, 254, 253, 252, 255], to_rgba(&[[1, 2, 3], [0, 0, 0], [254, 253, 252]]));
}

#[test]
fn encode_png_round_trips() {
    let rgba = to_rgba(&[[255, 0, 0], [0, 255, 0], [0, 0, 255], [10, 20, 30], [1, 2, 3], [4, 5, 6]]);
    let stream = encode_png(&rgba, 3, 2).unwrap();

    assert_eq!(&[137u8, 80, 78, 71, 13, 10, 26, 10][..], &stream[..8]);
    assert_ne!(rgba, stream);

    let decoder = png::Decoder::new(&stream[..]);
    let mut reader = decoder.read_info().unwrap();
    let mut decoded = vec![0; reader.output_buffer_size()];
    let info = reader.next_frame(&mut decoded).unwrap();
    assert_eq!(3, info.width);
    assert_eq!(2, info.height);
    assert_eq!(png::ColorType::Rgba, info.color_type);
    assert_eq!(png::BitDepth::Eight, info.bit_depth);
    assert_eq!(rgba, decoded[..info.buffer_size()].to_vec());

    assert_eq!(stream, encode_png(&rgba, 3, 2).unwrap());
}

#[test]
fn encode_png_refuses_unfit_buffers() {
    let rgba = to_rgba(&[[255, 0, 0], [0, 255, 0]]);
    assert_eq!(Err(EncodeError::Format), encode_png(&rgba, 0, 2));
    assert_eq!(Err(EncodeError::Format), encode_png(&rgba, 2, 0));
    assert_eq!(Err(EncodeError::Parameter), encode_png(&rgba, 3, 1));
    assert_eq!(Err(EncodeError::Parameter), encode_png(&rgba, 1, 1));
    assert_eq!(Err(EncodeError::Parameter), encode_png(&rgba, u32::MAX, u32::MAX));
    assert!(encode_png(&rgba, 2, 1).is_ok());
    assert!(encode_png(&rgba, 1, 2).is_ok());
}

#[test]
fn colors_hold_their_channels() {
    let c = color(0.9, 0.6, 0.75);
    assert_eq!(0.9, f(c.components()[0]));
    assert_eq!(0.6, f(c.components()[1]));
    assert_eq!(0.75, f(c.components()[2]));
    assert_eq!(color(0.0, 0.0, 0.0), Color::black());
    assert_eq!(color(1.0, 1.0, 1.0), Color::white());
}

#[test]
fn points_and_vectors_carry_their_mark() {
    let p = Point::new(s(1.0), s(2.0), s(3.0));
    assert_eq!([1.0, 2.0, 3.0, 1.0], p.components().map(f));
    let v = Vector::new(s(1.0), s(2.0), s(3.0));
    assert_eq!([1.0, 2.0, 3.0, 0.0], v.components().map(f));
    assert_eq!([0.0, 0.0, 0.0, 1.0], Point::origin().components().map(f));

    let raw = [s(4.0), s(5.0), s(6.0), s(7.0)];
    assert_eq!([4.0, 5.0, 6.0, 1.0], Point::from(raw).components().map(f));
    assert_eq!([4.0, 5.0, 6.0, 0.0], Vector::from(raw).components().map(f));

    let zeros = [s(0.0); 4];
    assert_eq!([0.0, 0.0, 0.0, 1.0], Point::from(zeros).components().map(f));
    let marked = [s(1.0), s(2.0), s(3.0), s(7.0)];
    assert_eq!([1.0, 2.0, 3.0, 0.0], Vector::from(marked).components().map(f));
    assert_eq!(Point::new(s(1.0), s(2.0), s(3.0)).components(), Point::from(marked).components());
}

#[test]
fn test_vector_neg() {
    let negated = Vector::new(s(-1.0), s(2.0), s(-3.0)).neg();
    assert_eq!(Vector::new(s(1.0), s(-2.0), s(3.0)).components(), negated.components());
    assert_eq!([1.0, -2.0, 3.0, 0.0], negated.components().map(f));

    let marked = Vector::from([s(1.0), s(1.0), s(1.0), s(1.0)]).neg();
    assert_eq!([-1.0, -1.0, -1.0, 0.0], marked.components().map(f));
}

#[test]
fn rays_and_lights_hand_back_their_parts() {
    let origin = Point::new(s(1.0), s(2.0), s(3.0));
    let direction = Vector::new(s(0.0), s(1.0), s(0.0));
    let ray = Ray::new(origin, direction);
    assert_eq!(origin.components(), ray.origin().components());
    assert_eq!(direction.components(), ray.direction().components());

    let light = PointLight::new(origin, Color::white());
    assert_eq!(origin.components(), light.position().components());
    assert_eq!(&Color::white(), light.intensity());
}

#[test]
fn materials_hand_back_their_parts() {
    let m = Material::new(color(1.0, 0.2, 1.0), s(0.1), s(0.9), s(0.8), s(20.0));
    assert_eq!(&color(1.0, 0.2, 1.0), m.color());
    assert_eq!(0.1, f(m.ambient()));
    assert_eq!(0.9, f(m.diffuse()));
    assert_eq!(0.8, f(m.specular()));
    assert_eq!(20.0, f(m.shininess()));

    let d = Material::default();
    assert_eq!(&Color::white(), d.color());
    assert_eq!(0.1, f(d.ambient()));
    assert_eq!(0.9, f(d.diffuse()));
    assert_eq!(0.9, f(d.specular()));
    assert_eq!(200.0, f(d.shininess()));
}

#[test]
fn test_index() {
    let matrix = Matrix::new([
        [s(1.0), s(2.0), s(3.0), s(4.0)],
        [s(5.5), s(6.5), s(7.5), s(8.5)],
        [s(9.0), s(10.0), s(11.0), s(12.0)],
        [s(13.5), s(14.5), s(15.5), s(16.5)],
    ]);

    assert_eq!(1.0, f(matrix.get(0, 0)));
    assert_eq!(7.5, f(matrix.get(1, 2)));
    assert_eq!(13.5, f(matrix.get(3, 0)));
}

#[test]
fn identity_has_ones_on_the_diagonal() {
    let m = Matrix::<4>::identity();
    for r in 0..4 {
        for c in 0..4 {
            assert_eq!(if r == c { 1.0 } else { 0.0 }, f(m.get(r, c)));
        }
    }
    let one = Matrix::<1>::identity();
    assert_eq!(1.0, f(one.get(0, 0)));
    let filled = Matrix::<2>::filled(s(7.0));
    assert_eq!([[s(7.0); 2]; 2], filled.elements());
}

#[test]
fn remaining_indices_skip_one() {
    assert_eq!([1, 2, 3], Matrix::<4>::remaining_indices(0));
    assert_eq!([0, 2, 3], Matrix::<4>::remaining_indices(1));
    assert_eq!([0, 1, 3], Matrix::<4>::remaining_indices(2));
    assert_eq!([0, 1, 2], Matrix::<4>::remaining_indices(3));
    assert_eq!([1, 2], Matrix::<3>::remaining_indices(0));
    assert_eq!([0, 2], Matrix::<3>::remaining_indices(1));
    assert_eq!([0, 1], Matrix::<3>::remaining_indices(2));
}

#[test]
fn cofactors_alternate_in_sign() {
    for row in 0..4 {
        for col in 0..4 {
            let expected = if (row + col) % 2 == 0 { 2.5 } else { -2.5 };
            assert_eq!(expected, f(Matrix::<4>::cofactor(s(2.5), row, col)));
        }
    }
    for row in 0..3 {
        for col in 0..3 {
            let expected = if (row + col) % 2 == 0 { -4.0 } else { 4.0 };
            assert_eq!(expected, f(Matrix::<3>::cofactor(s(-4.0), row, col)));
        }
    }
    assert_eq!(-1.0, f(Matrix::<4>::cofactor(s(1.0), usize::MAX, 0)));
    assert_eq!(1.0, f(Matrix::<4>::cofactor(s(1.0), usize::MAX, usize::MAX)));
}

#[test]
fn inverse_places_the_adjugate() {
    let mut rows = [[s(0.0); 4]; 4];
    for r in 0..4 {
        for c in 0..4 {
            rows[r][c] = s((10 * r + c) as f64);
        }
    }
    let quotients = Matrix::new(rows);
    let inverse = Matrix::<4>::inverse(s(2.0), &quotients).unwrap();
    for r in 0..4 {
        for c in 0..4 {
            assert_eq!((10 * r + c) as f64, f(inverse.get(c, r)));
        }
    }
    assert_eq!(Some(NotInvertible), Matrix::<4>::inverse(s(0.0), &quotients).err());
    assert_eq!(Some(NotInvertible), Matrix::<4>::inverse(s(-0.0), &quotients).err());
    assert!(Matrix::<4>::inverse(s(5e-324), &quotients).is_ok());
    assert!(Matrix::<4>::inverse(s(f64::NAN), &quotients).is_ok());
}

#[test]
fn transformations_hand_out_their_angle() {
    assert_eq!(Some(s(0.5)), Transformation::RotateX(s(0.5)).angle());
    assert_eq!(Some(s(1.5)), Transformation::RotateY(s(1.5)).angle());
    assert_eq!(Some(s(2.5)), Transformation::RotateZ(s(2.5)).angle());
    assert_eq!(None, Transformation::Translate(s(1.0), s(2.0), s(3.0)).angle());
    assert_eq!(None, Transformation::Scale(s(1.0), s(2.0), s(3.0)).angle());
    assert_eq!(None, Transformation::Shear(s(1.0), s(2.0), s(3.0), s(4.0), s(5.0), s(6.0)).angle());
}

#[test]
fn transformations_have_their_canonical_matrices() {
    let rows = |m: Matrix<4>| m.elements().map(|row| row.map(f));
    let unused = s(9.0);

    assert_eq!(
        [[1.0, 0.0, 0.0, 5.0], [0.0, 1.0, 0.0, -3.0], [0.0, 0.0, 1.0, 2.0], [0.0, 0.0, 0.0, 1.0]],
        rows(Transformation::Translate(s(5.0), s(-3.0), s(2.0)).matrix(unused, unused))
    );
    assert_eq!(
        [[2.0, 0.0, 0.0, 0.0], [0.0, 3.0, 0.0, 0.0], [0.0, 0.0, 4.0, 0.0], [0.0, 0.0, 0.0, 1.0]],
        rows(Transformation::Scale(s(2.0), s(3.0), s(4.0)).matrix(unused, unused))
    );
    assert_eq!(
        [[1.0, 0.0, 0.0, 0.0], [0.0, 0.8, -0.6, 0.0], [0.0, 0.6, 0.8, 0.0], [0.0, 0.0, 0.0, 1.0]],
        rows(Transformation::RotateX(s(0.0)).matrix(s(0.6), s(0.8)))
    );
    assert_eq!(
        [[0.8, 0.0, 0.6, 0.0], [0.0, 1.0, 0.0, 0.0], [-0.6, 0.0, 0.8, 0.0], [0.0, 0.0, 0.0, 1.0]],
        rows(Transformation::RotateY(s(0.0)).matrix(s(0.6), s(0.8)))
    );
    assert_eq!(
        [[0.8, -0.6, 0.0, 0.0], [0.6, 0.8, 0.0, 0.0], [0.0, 0.0, 1.0, 0.0], [0.0, 0.0, 0.0, 1.0]],
        rows(Transformation::RotateZ(s(0.0)).matrix(s(0.6), s(0.8)))
    );
    assert_eq!(
        [[1.0, 2.0, 3.0, 0.0], [4.0, 1.0, 5.0, 0.0], [6.0, 7.0, 1.0, 0.0], [0.0, 0.0, 0.0, 1.0]],
        rows(Transformation::Shear(s(2.0), s(3.0), s(4.0), s(5.0), s(6.0), s(7.0)).matrix(unused, unused))
    );
}

#[test]
fn factors_come_last_step_first() {
    let steps = [
        (Transformation::RotateX(s(1.0)), s(0.6), s(0.8)),
        (Transformation::Scale(s(5.0), s(5.0), s(5.0)), s(0.0), s(1.0)),
        (Transformation::Translate(s(10.0), s(5.0), s(7.0)), s(0.0), s(1.0)),
    ];
    let factors = transform_factors(&steps);

    assert_eq!(3, factors.len());
    for k in 0..3 {
        let (step, sin, cos) = steps[2 - k];
        assert_eq!(step.matrix(sin, cos).elements(), factors[k].elements());
    }
    assert_eq!(10.0, f(factors[0].get(0, 3)));
    assert_eq!(5.0, f(factors[1].get(0, 0)));
    assert_eq!(-0.6, f(factors[2].get(1, 2)));
    assert!(transform_factors(&[]).is_empty());
}

#[test]
fn intersection_test_hit() {
    let shape = 0;

    {
        let intersections = vec![Intersection::new(s(1.0), shape), Intersection::new(s(2.0), shape)];

        assert_eq!(1.0, f(hit(&intersections).unwrap().distance()));
    }

    {
        let intersections = vec![Intersection::new(s(-1.0), shape), Intersection::new(s(1.0), shape)];

        assert_eq!(1.0, f(hit(&intersections).unwrap().distance()));
    }

    {
        let intersections = vec![Intersection::new(s(-2.0), shape), Intersection::new(s(-1.0), shape)];

        assert!(hit(&intersections).is_none());
    }

    {
        let intersections = vec![
            Intersection::new(s(5.0), shape),
            Intersection::new(s(7.0), shape),
            Intersection::new(s(-3.0), shape),
            Intersection::new(s(2.0), shape),
        ];

        assert_eq!(2.0, f(hit(&intersections).unwrap().distance()));
    }
}

#[test]
fn hit_takes_the_first_of_the_nearest() {
    let crossings = vec![
        Intersection::new(s(f64::NAN), 0),
        Intersection::new(s(3.0), 1),
        Intersection::new(s(-0.5), 2),
        Intersection::new(s(1.0), 3),
        Intersection::new(s(1.0), 4),
        Intersection::new(s(f64::INFINITY), 5),
    ];
    assert_eq!(Some(3), hit_index(&crossings));
    assert_eq!(3, hit(&crossings).unwrap().shape());

    assert_eq!(None, hit_index(&[]));
    assert_eq!(None, hit_index(&[Intersection::new(s(f64::NAN), 0)]));
    assert_eq!(Some(0), hit_index(&[Intersection::new(s(-0.0), 7)]));
    assert_eq!(Some(1), hit_index(&[Intersection::new(s(-1e-300), 7), Intersection::new(s(0.0), 8)]));
    assert_eq!(Some(0), hit_index(&[Intersection::new(s(0.0), 7), Intersection::new(s(-0.0), 8)]));
}

#[test]
fn lighting_picks_the_terms_that_count() {
    let ambient = color(0.1, 0.1, 0.1);
    let diffuse = color(0.9, 0.8, 0.7);
    let specular = color(0.5, 0.4, 0.3);
    let black = Color::black();

    let lit = Material::lighting(s(1.0), s(1.0), ambient, diffuse, specular);
    assert_eq!((ambient, diffuse, specular), (lit.ambient, lit.diffuse, lit.specular));

    let behind = Material::lighting(s(-1.0), s(1.0), ambient, diffuse, specular);
    assert_eq!((ambient, black, black), (behind.ambient, behind.diffuse, behind.specular));

    let away = Material::lighting(s(1.0), s(-0.5), ambient, diffuse, specular);
    assert_eq!((ambient, diffuse, black), (away.ambient, away.diffuse, away.specular));

    let grazing = Material::lighting(s(0.0), s(0.0), ambient, diffuse, specular);
    assert_eq!((ambient, diffuse, black), (grazing.ambient, grazing.diffuse, grazing.specular));

    let edge = Material::lighting(s(-0.0), s(5e-324), ambient, diffuse, specular);
    assert_eq!((ambient, diffuse, specular), (edge.ambient, edge.diffuse, edge.specular));
}

#[test]
fn sphere_intersect_orders_the_roots() {
    let far_first = Sphere::default().intersect(s(4.0), s(6.0), s(4.0), 3);
    assert_eq!(vec![(s(4.0), 3), (s(6.0), 3)], crossings(&far_first));

    let near_first = Sphere::default().intersect(s(4.0), s(4.0), s(6.0), 3);
    assert_eq!(vec![(s(4.0), 3), (s(6.0), 3)], crossings(&near_first));

    let tangent = Sphere::default().intersect(s(0.0), s(5.0), s(5.0), 1);
    assert_eq!(vec![(s(5.0), 1), (s(5.0), 1)], crossings(&tangent));

    assert!(Sphere::default().intersect(s(-1e-300), s(1.0), s(2.0), 0).is_empty());
    assert_eq!(2, Sphere::default().intersect(s(-0.0), s(1.0), s(2.0), 0).len());
}

#[test]
fn spheres_are_built_from_an_inverse() {
    let unit = Sphere::default();
    assert_eq!(Matrix::<4>::identity().elements(), unit.inverse_transformation().elements());
    assert_eq!(parts(&Material::default()), parts(unit.material()));

    let material = Material::new(color(1.0, 0.2, 1.0), s(0.1), s(0.9), s(0.9), s(20.0));
    let quotients = Matrix::new([
        [s(1.0), s(2.0), s(3.0), s(4.0)],
        [s(5.0), s(6.0), s(7.0), s(8.0)],
        [s(9.0), s(10.0), s(11.0), s(12.0)],
        [s(13.0), s(14.0), s(15.0), s(16.0)],
    ]);

    let placed = Sphere::with_transformations(s(8.0), &quotients, material).unwrap();
    assert_eq!(quotients.transpose().elements(), placed.inverse_transformation().elements());
    assert_eq!(2.0, f(placed.inverse_transformation().get(1, 0)));
    assert_eq!(parts(&material), parts(placed.material()));
}

#[test]
fn spheres_refuse_a_placement_without_inverse() {
    let material = Material::default();
    let flat = Transformation::Scale(s(0.0), s(1.0), s(1.0)).matrix(s(0.0), s(1.0));

    assert_eq!(Some(NotInvertible), Sphere::with_transformations(s(0.0), &flat, material).err());
    assert_eq!(Some(NotInvertible), Sphere::with_transformations(s(-0.0), &flat, material).err());
    assert!(Sphere::with_transformations(s(1e-300), &flat, material).is_ok());
}

#[test]
fn scalar_equality_agrees_with_the_machine() {
    for a in samples() {
        for b in samples() {
            assert_eq!(a == b, s(a).equals(&s(b)), "{a} == {b}");
        }
    }
}

#[test]
fn colors_compare_by_value() {
    assert_eq!(color(0.0, 0.5, 1.0), color(-0.0, 0.5, 1.0));
    assert_ne!(color(0.0, 0.5, 1.0), color(0.0, 0.5, 1.5));
    assert_ne!(color(0.5, 0.0, 1.0), color(0.0, 0.5, 1.0));
    assert_ne!(color(f64::NAN, 0.0, 0.0), color(f64::NAN, 0.0, 0.0));
    assert!(color(1.0, 2.0, 3.0) == color(1.0, 2.0, 3.0));
}
