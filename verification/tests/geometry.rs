use nalgebra_glm as glm;
use raytracing::hittables::bounding::aabb::{Aabb, Slab};
use raytracing::hittables::hittable::Hittable;
use raytracing::hittables::hittable_list::HittableList;
use raytracing::hittables::rect::{is_within, Crossing};
use raytracing::hittables::sphere::{Roots, Sphere, Surface};
use raytracing::hittables::triangle::{Meeting, Triangle};
use raytracing::hittables::xy_rect::XyRect;
use raytracing::hittables::xz_rect::XzRect;
use raytracing::hittables::yz_rect::YzRect;
use raytracing::misc::hit_record::HitRecord;
use raytracing::misc::ray::Ray;
use raytracing::misc::scalar::Scalar;
use raytracing::misc::vector::{Vec2, Vec3};

fn scalar(value: f32) -> Scalar {
    Scalar::from_bits(value.to_bits())
}

fn number(value: Scalar) -> f32 {
    f32::from_bits(value.to_bits())
}

fn vector(v: &glm::Vec3) -> Vec3 {
    Vec3::new(scalar(v.x), scalar(v.y), scalar(v.z))
}

fn floats(v: &Vec3) -> glm::Vec3 {
    glm::vec3(number(v.x), number(v.y), number(v.z))
}

fn corner(x: f32, y: f32) -> Vec2 {
    Vec2::new(scalar(x), scalar(y))
}

fn ray(origin: glm::Vec3, direction: glm::Vec3) -> Ray {
    Ray::no_norm(vector(&origin), vector(&glm::normalize(&direction)))
}

fn roots(sphere: &Sphere, ray: &Ray) -> Roots {
    let oc = floats(&ray.origin) - floats(&sphere.center);
    let direction = floats(&ray.direction);
    let radius = number(sphere.radius);
    let a = direction.magnitude().powf(2.0);
    let half_b = oc.dot(&direction);
    let c = oc.magnitude().powf(2.0) - radius * radius;
    let discriminant = half_b * half_b - a * c;
    let sqrtd = discriminant.sqrt();
    Roots {
        discriminant: scalar(discriminant),
        near: scalar((-half_b - sqrtd) / a),
        far: scalar((-half_b + sqrtd) / a),
    }
}

fn hit_sphere(sphere: &Sphere, ray: &Ray, t_min: f32, t_max: f32, record: &mut HitRecord) -> bool {
    let found = roots(sphere, ray);
    let origin = floats(&ray.origin);
    let direction = floats(&ray.direction);
    let center = floats(&sphere.center);
    let radius = number(sphere.radius);
    sphere.hit(&found, scalar(t_min), scalar(t_max), record, |root: Scalar| {
        let point = origin + direction * number(root);
        Surface {
            point: vector(&point),
            normal: vector(&glm::normalize(&((point - center) / radius))),
        }
    })
}

fn xy_crossing(rect: &XyRect, ray: &Ray) -> Crossing {
    let o = floats(&ray.origin);
    let d = floats(&ray.direction);
    let t = (number(rect.normal_displacement) - o.z) / d.z;
    Crossing {
        distance: scalar(t),
        first: scalar(o.x + t * d.x),
        second: scalar(o.y + t * d.y),
        facing: scalar(d.dot(&floats(&XyRect::normal()))),
        point: vector(&(o + d * t)),
    }
}

fn xz_crossing(rect: &XzRect, ray: &Ray) -> Crossing {
    let o = floats(&ray.origin);
    let d = floats(&ray.direction);
    let t = (number(rect.normal_displacement) - o.y) / d.y;
    Crossing {
        distance: scalar(t),
        first: scalar(o.x + t * d.x),
        second: scalar(o.z + t * d.z),
        facing: scalar(d.dot(&floats(&XzRect::normal()))),
        point: vector(&(o + d * t)),
    }
}

fn yz_crossing(rect: &YzRect, ray: &Ray) -> Crossing {
    let o = floats(&ray.origin);
    let d = floats(&ray.direction);
    let t = (number(rect.normal_displacement) - o.x) / d.x;
    Crossing {
        distance: scalar(t),
        first: scalar(o.y + t * d.y),
        second: scalar(o.z + t * d.z),
        facing: scalar(d.dot(&floats(&YzRect::normal()))),
        point: vector(&(o + d * t)),
    }
}

fn meeting(triangle: &Triangle, ray: &Ray) -> Meeting {
    let v0 = floats(&triangle.point_one);
    let v1 = floats(&triangle.point_two);
    let v2 = floats(&triangle.point_three);
    let ro = floats(&ray.origin);
    let rd = floats(&ray.direction);
    let v1v0 = v1 - v0;
    let v2v0 = v2 - v0;
    let rov0 = ro - v0;
    let n = v1v0.cross(&v2v0);
    let q = rov0.cross(&rd);
    let d = 1.0 / rd.dot(&n);
    let u = d * (-q).dot(&v2v0);
    let v = d * q.dot(&v1v0);
    let t = d * (-n).dot(&rov0);
    Meeting {
        u: scalar(u),
        v: scalar(v),
        sum: scalar(u + v),
        distance: scalar(t),
        normal: vector(&n),
        point: vector(&(ro + rd * t)),
    }
}

enum Shape {
    Ball(Sphere),
    Floor(XyRect),
    Wall(YzRect),
    Lid(XzRect),
    Tri(Triangle),
}

impl Hittable for Shape {
    fn hit(&self, ray: &Ray, t_min: Scalar, t_max: Scalar, record: &mut HitRecord) -> bool {
        match self {
            Shape::Ball(sphere) => {
                hit_sphere(sphere, ray, number(t_min), number(t_max), record)
            }
            Shape::Floor(rect) => rect.hit(&xy_crossing(rect, ray), t_min, t_max, record),
            Shape::Wall(rect) => rect.hit(&yz_crossing(rect, ray), t_min, t_max, record),
            Shape::Lid(rect) => rect.hit(&xz_crossing(rect, ray), t_min, t_max, record),
            Shape::Tri(triangle) => triangle.hit(&meeting(triangle, ray), t_min, t_max, record),
        }
    }

    fn bounding_box(&self) -> Option<Aabb> {
        match self {
            Shape::Ball(_) => None,
            Shape::Floor(rect) => rect.bounding_box(),
            Shape::Wall(rect) => rect.bounding_box(),
            Shape::Lid(rect) => rect.bounding_box(),
            Shape::Tri(triangle) => triangle.bounding_box(),
        }
    }
}

#[test]
fn ray_through_the_centre_hits_the_sphere_at_distance_minus_radius() {
    let cases: Vec<(glm::Vec3, f32, glm::Vec3, f32)> = vec![
        (glm::vec3(0.0, 0.0, 0.0), 1.0, glm::vec3(0.0, 0.0, 1.0), 5.0),
        (glm::vec3(1.0, -2.0, 3.0), 0.5, glm::vec3(1.0, 1.0, 1.0), 2.0),
        (glm::vec3(-4.0, 0.25, 9.0), 2.5, glm::vec3(-0.3, 0.9, 0.1), 2.6),
        (glm::vec3(0.0, 0.0, -0.5), 0.5, glm::vec3(0.0, 1.0, 0.0), 2.4),
        (glm::vec3(10.0, 10.0, 10.0), 3.0, glm::vec3(0.2, -0.7, 0.4), 100.0),
    ];
    for (center, radius, towards, distance) in cases {
        let unit = glm::normalize(&towards);
        let origin = center - unit * distance;
        let sphere = Sphere::new(vector(&center), scalar(radius), 0);
        let cast = ray(origin, unit);
        let mut record = HitRecord::default();
        assert!(hit_sphere(&sphere, &cast, 0.0001, f32::INFINITY, &mut record));
        let t = number(record.get_distance());
        assert!((t - (distance - radius)).abs() < 1.0e-3 * distance, "{} {}", t, distance - radius);
        assert_eq!(record.get_material(), Some(0));
        let normal = floats(record.get_normal());
        assert!((normal + unit).magnitude() < 1.0e-3);
        let point = floats(record.get_point());
        assert!((point - (center - unit * radius)).magnitude() < 1.0e-3 * distance);
    }
}

#[test]
fn ray_that_passes_beside_the_sphere_misses() {
    let cases: Vec<(glm::Vec3, f32, f32)> = vec![
        (glm::vec3(0.0, 0.0, 0.0), 1.0, 1.01),
        (glm::vec3(1.0, -2.0, 3.0), 0.5, 0.75),
        (glm::vec3(-4.0, 0.25, 9.0), 2.5, 30.0),
    ];
    for (center, radius, offset) in cases {
        let origin = center + glm::vec3(offset, 0.0, -10.0);
        let sphere = Sphere::new(vector(&center), scalar(radius), 0);
        let cast = ray(origin, glm::vec3(0.0, 0.0, 1.0));
        let before = HitRecord::new(Vec3::zeros(), Vec3::zeros(), scalar(7.0), false, 9);
        let mut record = before;
        assert!(!hit_sphere(&sphere, &cast, 0.0001, f32::INFINITY, &mut record));
        assert_eq!(record, before);
        assert!(Sphere::select_root(&roots(&sphere, &cast), scalar(0.0001), Scalar::infinity())
            .is_none());
    }
}

#[test]
fn sphere_falls_back_to_the_larger_root() {
    let t_min = scalar(0.0001);
    let t_max = Scalar::infinity();
    let both = Roots { discriminant: scalar(4.0), near: scalar(2.0), far: scalar(6.0) };
    assert_eq!(Sphere::select_root(&both, t_min, t_max), Some(scalar(2.0)));
    let inside = Roots { discriminant: scalar(4.0), near: scalar(-3.0), far: scalar(1.0) };
    assert_eq!(Sphere::select_root(&inside, t_min, t_max), Some(scalar(1.0)));
    let behind = Roots { discriminant: scalar(4.0), near: scalar(-3.0), far: scalar(-1.0) };
    assert_eq!(Sphere::select_root(&behind, t_min, t_max), None);
    let negative = Roots { discriminant: scalar(-0.5), near: scalar(2.0), far: scalar(6.0) };
    assert_eq!(Sphere::select_root(&negative, t_min, t_max), None);
    let beyond = Roots { discriminant: scalar(4.0), near: scalar(2.0), far: scalar(6.0) };
    assert_eq!(Sphere::select_root(&beyond, t_min, scalar(1.5)), None);
    assert_eq!(Sphere::select_root(&beyond, scalar(3.0), scalar(6.0)), Some(scalar(6.0)));
    let grazing = Roots { discriminant: scalar(0.0), near: scalar(2.0), far: scalar(2.0) };
    assert_eq!(Sphere::select_root(&grazing, t_min, t_max), Some(scalar(2.0)));
    let nothing =
        Roots { discriminant: scalar(f32::NAN), near: scalar(f32::NAN), far: scalar(f32::NAN) };
    assert_eq!(Sphere::select_root(&nothing, t_min, t_max), None);
}

#[test]
fn intervals_hold_their_ends_and_no_nan() {
    assert!(is_within(scalar(1.0), scalar(1.0), scalar(2.0)));
    assert!(is_within(scalar(2.0), scalar(1.0), scalar(2.0)));
    assert!(!is_within(scalar(2.5), scalar(1.0), scalar(2.0)));
    assert!(!is_within(scalar(0.5), scalar(1.0), scalar(2.0)));
    assert!(!is_within(scalar(f32::NAN), scalar(1.0), scalar(2.0)));
    assert!(is_within(scalar(f32::INFINITY), scalar(1.0), Scalar::infinity()));
    assert!(is_within(scalar(-0.0), scalar(0.0), scalar(0.0)));
}

#[test]
fn rectangle_face_flag_follows_the_direction_along_the_normal() {
    let xy = XyRect::new(corner(-1.0, -1.0), corner(1.0, 1.0), scalar(2.0), 3);
    let xz = XzRect::new(corner(-1.0, -1.0), corner(1.0, 1.0), scalar(2.0), 4);
    let yz = YzRect::new(corner(-1.0, -1.0), corner(1.0, 1.0), scalar(2.0), 5);
    let directions = vec![
        glm::vec3(0.1, 0.2, 1.0),
        glm::vec3(-0.3, 0.1, 1.0),
        glm::vec3(0.2, 1.0, -0.1),
        glm::vec3(1.0, 0.3, 0.2),
        glm::vec3(0.3, 0.3, 0.3),
        glm::vec3(0.0, 0.0, 1.0),
        glm::vec3(-0.2, -1.0, 0.1),
        glm::vec3(-1.0, 0.1, -0.1),
        glm::vec3(0.1, -0.1, -1.0),
    ];
    let mut hits = 0;
    for direction in directions {
        let unit = glm::normalize(&direction);
        for sign in [1.0f32, -1.0] {
            let unit = unit * sign;
            for (plane, target) in [
                (0, glm::vec3(0.2, -0.3, 2.0)),
                (1, glm::vec3(0.2, 2.0, -0.3)),
                (2, glm::vec3(2.0, 0.2, -0.3)),
            ] {
                let cast = ray(target - unit * 3.0, unit);
                let mut record = HitRecord::default();
                let (hit, normal, along) = match plane {
                    0 => (
                        xy.hit(&xy_crossing(&xy, &cast), scalar(0.0001), Scalar::infinity(), &mut record),
                        floats(&XyRect::normal()),
                        unit.z,
                    ),
                    1 => (
                        xz.hit(&xz_crossing(&xz, &cast), scalar(0.0001), Scalar::infinity(), &mut record),
                        floats(&XzRect::normal()),
                        -unit.y,
                    ),
                    _ => (
                        yz.hit(&yz_crossing(&yz, &cast), scalar(0.0001), Scalar::infinity(), &mut record),
                        floats(&YzRect::normal()),
                        unit.x,
                    ),
                };
                if along == 0.0 {
                    continue;
                }
                assert!(hit, "{:?} plane {}", unit, plane);
                hits += 1;
                assert_eq!(record.get_is_front_face(), unit.dot(&normal) > 0.0);
                assert_eq!(record.get_is_front_face(), along > 0.0);
                let recorded = floats(record.get_normal());
                if along > 0.0 {
                    assert_eq!(recorded, -normal);
                } else {
                    assert_eq!(recorded, normal);
                }
                assert!(unit.dot(&recorded) < 0.0);
                assert!((number(record.get_distance()) - 3.0).abs() < 1.0e-4);
                assert!((floats(record.get_point()) - target).magnitude() < 1.0e-4);
                assert_eq!(record.get_material(), Some(3 + plane));
            }
        }
    }
    assert!(hits > 30);
}

#[test]
fn rectangle_rejects_what_lies_outside_its_extents_or_distances() {
    let rect = XyRect::new(corner(-1.0, -2.0), corner(1.0, 2.0), scalar(0.0), 1);
    let before = HitRecord::default();
    let inside = Crossing {
        distance: scalar(5.0),
        first: scalar(1.0),
        second: scalar(-2.0),
        facing: scalar(-0.5),
        point: Vec3::new(scalar(1.0), scalar(-2.0), scalar(0.0)),
    };
    let mut record = before;
    assert!(rect.hit(&inside, scalar(0.0001), Scalar::infinity(), &mut record));
    assert_eq!(
        record,
        HitRecord::new(inside.point, XyRect::normal(), scalar(5.0), false, 1)
    );
    for outside in [
        Crossing { first: scalar(1.001), ..inside },
        Crossing { first: scalar(-1.001), ..inside },
        Crossing { second: scalar(2.5), ..inside },
        Crossing { second: scalar(-2.5), ..inside },
        Crossing { distance: scalar(0.00001), ..inside },
        Crossing { distance: scalar(-5.0), ..inside },
        Crossing { distance: scalar(f32::NAN), ..inside },
        Crossing { first: scalar(f32::NAN), ..inside },
        Crossing { second: scalar(f32::INFINITY), ..inside },
    ] {
        let mut record = before;
        assert!(!rect.hit(&outside, scalar(0.0001), Scalar::infinity(), &mut record));
        assert_eq!(record, before);
    }
    let mut record = before;
    assert!(!rect.hit(&inside, scalar(0.0001), scalar(4.9), &mut record));
    assert_eq!(record, before);
}

#[test]
fn ray_parallel_to_a_rectangle_misses() {
    let rect = XyRect::new(corner(-1.0, -1.0), corner(1.0, 1.0), scalar(0.0), 1);
    let in_plane = ray(glm::vec3(-5.0, 0.0, 0.0), glm::vec3(1.0, 0.0, 0.0));
    let above = ray(glm::vec3(-5.0, 0.0, 1.0), glm::vec3(1.0, 0.0, 0.0));
    for cast in [in_plane, above] {
        let mut record = HitRecord::default();
        assert!(!rect.hit(&xy_crossing(&rect, &cast), scalar(0.0001), Scalar::infinity(), &mut record));
        assert_eq!(record, HitRecord::default());
    }
}

#[test]
fn triangle_is_hit_inside_and_missed_outside() {
    let triangle = Triangle::new(
        vector(&glm::vec3(0.0, 0.0, 0.0)),
        vector(&glm::vec3(2.0, 0.0, 0.0)),
        vector(&glm::vec3(0.0, 2.0, 0.0)),
        6,
    );
    let down = glm::vec3(0.0, 0.0, -1.0);
    let mut record = HitRecord::new(Vec3::zeros(), Vec3::zeros(), scalar(0.0), false, 0);
    let cast = ray(glm::vec3(0.5, 0.5, 3.0), down);
    assert!(triangle.hit(&meeting(&triangle, &cast), scalar(0.0001), Scalar::infinity(), &mut record));
    assert!((number(record.get_distance()) - 3.0).abs() < 1.0e-5);
    assert_eq!(record.get_material(), Some(6));
    assert_eq!(floats(record.get_normal()), glm::vec3(0.0, 0.0, 4.0));
    assert!((floats(record.get_point()) - glm::vec3(0.5, 0.5, 0.0)).magnitude() < 1.0e-5);
    assert!(!record.get_is_front_face());
    for origin in [
        glm::vec3(1.5, 1.5, 3.0),
        glm::vec3(-0.1, 0.5, 3.0),
        glm::vec3(0.5, -0.1, 3.0),
        glm::vec3(3.0, 0.1, 3.0),
    ] {
        let before = HitRecord::default();
        let mut record = before;
        let cast = ray(origin, down);
        assert!(!triangle.hit(&meeting(&triangle, &cast), scalar(0.0001), Scalar::infinity(), &mut record));
        assert_eq!(record, before);
    }
    let behind = ray(glm::vec3(0.5, 0.5, -3.0), down);
    let mut record = HitRecord::default();
    assert!(!triangle.hit(&meeting(&triangle, &behind), scalar(0.0001), Scalar::infinity(), &mut record));
    let mut record = HitRecord::default();
    assert!(!triangle.hit(&meeting(&triangle, &cast), scalar(0.0001), scalar(2.5), &mut record));
}

#[test]
fn ray_in_the_plane_of_a_triangle_misses_without_panicking() {
    let triangle = Triangle::new(
        vector(&glm::vec3(0.0, 0.0, 0.0)),
        vector(&glm::vec3(2.0, 0.0, 0.0)),
        vector(&glm::vec3(0.0, 2.0, 0.0)),
        6,
    );
    let rays = vec![
        ray(glm::vec3(-1.0, 0.5, 0.0), glm::vec3(1.0, 0.0, 0.0)),
        ray(glm::vec3(0.5, 0.5, 0.0), glm::vec3(0.0, 1.0, 0.0)),
        ray(glm::vec3(-1.0, 0.5, 1.0), glm::vec3(1.0, 0.0, 0.0)),
        ray(glm::vec3(0.0, 0.0, 0.0), glm::vec3(1.0, 1.0, 0.0)),
    ];
    for cast in rays {
        let found = meeting(&triangle, &cast);
        let before = HitRecord::default();
        let mut record = before;
        assert!(!triangle.hit(&found, scalar(0.0001), Scalar::infinity(), &mut record));
        assert_eq!(record, before);
    }
    let degenerate = Meeting {
        u: scalar(f32::NAN),
        v: scalar(f32::NAN),
        sum: scalar(f32::NAN),
        distance: scalar(f32::NAN),
        normal: Vec3::zeros(),
        point: Vec3::zeros(),
    };
    let mut record = HitRecord::default();
    assert!(!triangle.hit(&degenerate, scalar(0.0001), Scalar::infinity(), &mut record));
    let at_infinity = Meeting {
        u: scalar(0.5),
        v: scalar(f32::NAN),
        sum: scalar(0.5),
        distance: scalar(f32::INFINITY),
        ..degenerate
    };
    assert!(!triangle.hit(&at_infinity, scalar(0.0001), Scalar::infinity(), &mut record));
    assert_eq!(record, HitRecord::default());
}

#[test]
fn bounding_boxes_hold_their_shapes() {
    let triangle = Triangle::new(
        vector(&glm::vec3(1.0, -2.0, 3.0)),
        vector(&glm::vec3(-1.0, 5.0, 0.5)),
        vector(&glm::vec3(0.0, 0.0, 7.0)),
        0,
    );
    assert_eq!(
        triangle.bounding_box(),
        Some(Aabb::new(vector(&glm::vec3(-1.0, -2.0, 0.5)), vector(&glm::vec3(1.0, 5.0, 7.0))))
    );
    let xy = XyRect::new(corner(1.0, -2.0), corner(-1.0, 2.0), scalar(4.0), 0);
    assert_eq!(
        xy.bounding_box(),
        Some(Aabb::new(vector(&glm::vec3(-1.0, -2.0, 4.0)), vector(&glm::vec3(1.0, 2.0, 4.0))))
    );
    let xz = XzRect::new(corner(1.0, -2.0), corner(-1.0, 2.0), scalar(4.0), 0);
    assert_eq!(
        xz.bounding_box(),
        Some(Aabb::new(vector(&glm::vec3(-1.0, 4.0, -2.0)), vector(&glm::vec3(1.0, 4.0, 2.0))))
    );
    let yz = YzRect::new(corner(1.0, -2.0), corner(-1.0, 2.0), scalar(4.0), 0);
    assert_eq!(
        yz.bounding_box(),
        Some(Aabb::new(vector(&glm::vec3(4.0, -1.0, -2.0)), vector(&glm::vec3(4.0, 1.0, 2.0))))
    );
    let a = Aabb::new(vector(&glm::vec3(0.0, 0.0, 0.0)), vector(&glm::vec3(1.0, 1.0, 1.0)));
    let b = Aabb::new(vector(&glm::vec3(-1.0, 0.5, 0.25)), vector(&glm::vec3(0.5, 3.0, 0.75)));
    assert_eq!(
        a.surrounding(b),
        Aabb::new(vector(&glm::vec3(-1.0, 0.0, 0.0)), vector(&glm::vec3(1.0, 3.0, 1.0)))
    );
}

fn slabs(aabb: &Aabb, ray: &Ray) -> [Slab; 3] {
    let minimum = floats(&aabb.minimum);
    let maximum = floats(&aabb.maximum);
    let origin = floats(&ray.origin);
    let direction = floats(&ray.direction);
    let slab = |i: usize| {
        let inv_direction = 1.0 / direction[i];
        Slab {
            inv_direction: scalar(inv_direction),
            t0: scalar((minimum[i] - origin[i]) * inv_direction),
            t1: scalar((maximum[i] - origin[i]) * inv_direction),
        }
    };
    [slab(0), slab(1), slab(2)]
}

#[test]
fn slab_narrows_the_interval_from_both_ends() {
    let forward = Slab { inv_direction: scalar(2.0), t0: scalar(1.0), t1: scalar(3.0) };
    assert_eq!(forward.narrow(scalar(0.0), scalar(10.0)), Some((scalar(1.0), scalar(3.0))));
    assert_eq!(forward.narrow(scalar(2.0), scalar(2.5)), Some((scalar(2.0), scalar(2.5))));
    assert_eq!(forward.narrow(scalar(0.0), scalar(0.5)), None);
    assert_eq!(forward.narrow(scalar(3.0), scalar(10.0)), None);
    assert_eq!(forward.narrow(scalar(4.0), scalar(10.0)), None);
    assert!(forward.test(scalar(0.0), scalar(10.0)));
    assert!(!forward.test(scalar(0.0), scalar(0.5)));
    assert!(!forward.test(scalar(0.0), scalar(1.0)));
    assert!(forward.test(scalar(0.0), scalar(1.5)));
    let backward = Slab { inv_direction: scalar(-2.0), t0: scalar(3.0), t1: scalar(1.0) };
    assert_eq!(backward.narrow(scalar(0.0), scalar(10.0)), Some((scalar(1.0), scalar(3.0))));
    assert_eq!(backward.narrow(scalar(0.0), scalar(0.5)), None);
    let behind = Slab { inv_direction: scalar(1.0), t0: scalar(-2.0), t1: scalar(-1.0) };
    assert_eq!(behind.narrow(scalar(0.0), scalar(100.0)), None);
    assert!(!behind.test(scalar(0.0), scalar(100.0)));
}

#[test]
fn box_is_hit_only_where_all_three_slabs_overlap() {
    let wide = Slab { inv_direction: scalar(1.0), t0: scalar(0.0), t1: scalar(10.0) };
    let early = Slab { inv_direction: scalar(1.0), t0: scalar(1.0), t1: scalar(3.0) };
    let late = Slab { inv_direction: scalar(1.0), t0: scalar(4.0), t1: scalar(6.0) };
    let middle = Slab { inv_direction: scalar(1.0), t0: scalar(2.0), t1: scalar(5.0) };
    assert!(Aabb::hit(&[wide, early, middle], scalar(0.0), scalar(100.0)));
    assert!(Aabb::hit(&[middle, late, wide], scalar(0.0), scalar(100.0)));
    assert!(!Aabb::hit(&[early, late, wide], scalar(0.0), scalar(100.0)));
    assert!(!Aabb::hit(&[wide, early, late], scalar(0.0), scalar(100.0)));
    assert!(!Aabb::hit(&[late, wide, early], scalar(0.0), scalar(100.0)));
    assert!(!Aabb::hit(&[wide, wide, early], scalar(3.5), scalar(100.0)));
    assert!(!Aabb::hit(&[early, wide, wide], scalar(0.0), scalar(0.5)));
}

#[test]
fn box_behind_the_ray_is_missed() {
    let unit = Aabb::new(vector(&glm::vec3(0.0, 0.0, 0.0)), vector(&glm::vec3(1.0, 1.0, 1.0)));
    let away = ray(glm::vec3(2.0, 0.5, 0.5), glm::vec3(1.0, 0.0, 0.0));
    assert!(!Aabb::hit(&slabs(&unit, &away), scalar(0.0), scalar(100.0)));
    let towards = ray(glm::vec3(2.0, 0.5, 0.5), glm::vec3(-1.0, 0.0, 0.0));
    assert!(Aabb::hit(&slabs(&unit, &towards), scalar(0.0), scalar(100.0)));
    assert!(!Aabb::hit(&slabs(&unit, &towards), scalar(0.0), scalar(0.5)));
    let beside = ray(glm::vec3(2.0, 1.5, 0.5), glm::vec3(-1.0, 0.0, 0.0));
    assert!(!Aabb::hit(&slabs(&unit, &beside), scalar(0.0), scalar(100.0)));
    let slanted = ray(glm::vec3(-1.0, -1.0, -1.0), glm::vec3(1.0, 1.0, 1.0));
    assert!(Aabb::hit(&slabs(&unit, &slanted), scalar(0.0), scalar(100.0)));
    let inside = ray(glm::vec3(0.5, 0.5, 0.5), glm::vec3(0.3, -0.2, 0.9));
    assert!(Aabb::hit(&slabs(&unit, &inside), scalar(0.0), scalar(100.0)));
}

#[test]
fn nearest_surface_wins_whatever_the_order() {
    let near = Sphere::new(vector(&glm::vec3(0.0, 0.0, 5.0)), scalar(1.0), 1);
    let far = Sphere::new(vector(&glm::vec3(0.0, 0.0, 10.0)), scalar(1.0), 2);
    let floor = XyRect::new(corner(-1.0, -1.0), corner(1.0, 1.0), scalar(7.0), 3);
    let cast = ray(glm::vec3(0.0, 0.0, 0.0), glm::vec3(0.0, 0.0, 1.0));
    let orders: Vec<Vec<Shape>> = vec![
        vec![Shape::Ball(near), Shape::Ball(far), Shape::Floor(floor)],
        vec![Shape::Ball(far), Shape::Floor(floor), Shape::Ball(near)],
        vec![Shape::Floor(floor), Shape::Ball(near), Shape::Ball(far)],
    ];
    for shapes in orders {
        let list = HittableList::new(shapes);
        let mut record = HitRecord::default();
        assert!(list.hit(&cast, scalar(0.0001), Scalar::infinity(), &mut record));
        assert_eq!(record.get_material(), Some(1));
        assert!((number(record.get_distance()) - 4.0).abs() < 1.0e-5);
        assert!(list.bounding_box().is_none());
    }
}

#[test]
fn first_of_two_equally_near_surfaces_wins() {
    let first = XyRect::new(corner(-1.0, -1.0), corner(1.0, 1.0), scalar(3.0), 10);
    let second = XyRect::new(corner(-2.0, -2.0), corner(2.0, 2.0), scalar(3.0), 20);
    let cast = ray(glm::vec3(0.0, 0.0, 0.0), glm::vec3(0.0, 0.0, 1.0));
    let list = HittableList::new(vec![Shape::Floor(first), Shape::Floor(second)]);
    let mut record = HitRecord::default();
    assert!(list.hit(&cast, scalar(0.0001), Scalar::infinity(), &mut record));
    assert_eq!(record.get_material(), Some(10));
    let list = HittableList::new(vec![Shape::Floor(second), Shape::Floor(first)]);
    let mut record = HitRecord::default();
    assert!(list.hit(&cast, scalar(0.0001), Scalar::infinity(), &mut record));
    assert_eq!(record.get_material(), Some(20));
}

#[test]
fn list_without_a_hit_leaves_the_record_alone() {
    let ball = Sphere::new(vector(&glm::vec3(0.0, 0.0, 5.0)), scalar(1.0), 1);
    let wall = YzRect::new(corner(-1.0, -1.0), corner(1.0, 1.0), scalar(4.0), 2);
    let lid = XzRect::new(corner(-1.0, -1.0), corner(1.0, 1.0), scalar(4.0), 3);
    let tri = Triangle::new(
        vector(&glm::vec3(1.0, 1.0, -1.0)),
        vector(&glm::vec3(2.0, 1.0, -1.0)),
        vector(&glm::vec3(1.0, 2.0, -1.0)),
        4,
    );
    let list =
        HittableList::new(vec![Shape::Ball(ball), Shape::Wall(wall), Shape::Lid(lid), Shape::Tri(tri)]);
    let cast = ray(glm::vec3(0.0, 0.0, 0.0), glm::vec3(0.0, 0.0, -1.0));
    let before = HitRecord::new(Vec3::zeros(), Vec3::zeros(), scalar(1.0), false, 77);
    let mut record = before;
    assert!(!list.hit(&cast, scalar(0.0001), Scalar::infinity(), &mut record));
    assert_eq!(record, before);
    let empty: HittableList<Shape> = HittableList::new(Vec::new());
    assert!(!empty.hit(&cast, scalar(0.0001), Scalar::infinity(), &mut record));
    assert_eq!(record, before);
    let towards = ray(glm::vec3(0.0, 0.0, 0.0), glm::vec3(0.0, 0.0, 1.0));
    assert!(!list.hit(&towards, scalar(0.0001), scalar(3.5), &mut record));
    assert_eq!(record, before);
    assert!(list.hit(&towards, scalar(0.0001), scalar(4.5), &mut record));
    assert_eq!(record.get_material(), Some(1));
}

#[test]
fn records_and_rays_keep_what_they_are_given() {
    let mut record = HitRecord::default();
    assert_eq!(record.get_material(), None);
    assert!(record.get_is_front_face());
    assert_eq!(record.get_distance(), scalar(0.0));
    let point = vector(&glm::vec3(1.0, 2.0, 3.0));
    let normal = vector(&glm::vec3(0.0, 1.0, 0.0));
    record.set_point(point);
    record.set_normal(normal);
    record.set_distance(scalar(4.5));
    record.set_material(2);
    record.set_is_front_face(false);
    assert_eq!(record, HitRecord::new(point, normal, scalar(4.5), false, 2));
    assert_eq!(*record.get_point(), point);
    assert_eq!(*record.get_normal(), normal);
    let cast = Ray::no_norm(point, normal);
    assert_eq!(*cast.get_origin(), point);
    assert_eq!(*cast.get_direction(), normal);
    assert_eq!(Ray::default(), Ray::no_norm(Vec3::zeros(), Vec3::zeros()));
    assert_eq!(*Sphere::boxed(point, scalar(1.0), 3), Sphere::new(point, scalar(1.0), 3));
    assert_eq!(
        *Triangle::boxed(point, normal, point, 3),
        Triangle::new(point, normal, point, 3)
    );
    assert_eq!(
        *XyRect::boxed(corner(0.0, 0.0), corner(1.0, 1.0), scalar(2.0), 1),
        XyRect::new(corner(0.0, 0.0), corner(1.0, 1.0), scalar(2.0), 1)
    );
    assert_eq!(
        *XzRect::boxed(corner(0.0, 0.0), corner(1.0, 1.0), scalar(2.0), 1),
        XzRect::new(corner(0.0, 0.0), corner(1.0, 1.0), scalar(2.0), 1)
    );
    assert_eq!(
        *YzRect::boxed(corner(0.0, 0.0), corner(1.0, 1.0), scalar(2.0), 1),
        YzRect::new(corner(0.0, 0.0), corner(1.0, 1.0), scalar(2.0), 1)
    );
}
