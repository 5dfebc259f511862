use smr::color::Color;
use smr::render::Ray;
use smr::scene::{Element, Intersectable, Plane, Scene, Sphere};
use smr::space::{Point3, Vector3};

fn white() -> Color {
    Color { r: 1_000_000, g: 1_000_000, b: 1_000_000, a: 1_000_000 }
}

fn sphere_at(center: Point3, radius: i64) -> Sphere {
    Sphere { center, radius, color: white(), diffuse: 1_000_000, specular: 0 }
}

#[test]
fn vector_arithmetic() {
    let a = Vector3::new(3_000_000, 0, 4_000_000);
    assert_eq!(a.dot(&a), 25_000_000);
    assert_eq!(a.magnitude2(), 25_000_000);
    assert_eq!(a.magnitude(), 5_000_000);
    assert_eq!(a.normalized(), Vector3::new(600_000, 0, 800_000));
    assert_eq!(a.negated(), Vector3::new(-3_000_000, 0, -4_000_000));
    assert_eq!(a.scaled(500_000), Vector3::new(1_500_000, 0, 2_000_000));
    let p = Point3::new(1_000_000, 2_000_000, 3_000_000);
    let q = Point3::new(0, 0, 3_000_000);
    assert_eq!(p.minus(&q), Vector3::new(1_000_000, 2_000_000, 0));
    assert_eq!(q.plus(&Vector3::new(0, 0, -500_000)), Point3::new(0, 0, 2_500_000));
}

#[test]
fn center_ray_meets_sphere_at_radius() {
    // an exact radius: 1.5 squared stays on the grid
    let s = sphere_at(Point3::new(1_000_000, -2_000_000, 5_000_000), 1_500_000);
    let ray = Ray {
        origin: Point3::new(1_000_000, -2_000_000, 5_000_000),
        direction: Vector3::new(0, 0, 1_000_000),
    };
    assert_eq!(s.intersect(&ray), Some(1_500_000));
}

#[test]
fn center_ray_may_lose_one_grid_unit() {
    // 1.234567 squared leaves the grid, so the floor root gives radius - 1
    let s = sphere_at(Point3::new(0, 0, 0), 1_234_567);
    let ray = Ray { origin: Point3::new(0, 0, 0), direction: Vector3::new(0, 1_000_000, 0) };
    assert_eq!(s.intersect(&ray), Some(1_234_566));
}

#[test]
fn sphere_hit_from_inside_returns_exit_root() {
    let s = sphere_at(Point3::new(0, 0, -4_000_000), 1_000_000);
    let ray = Ray {
        origin: Point3::new(0, 0, -3_500_000),
        direction: Vector3::new(0, 0, -1_000_000),
    };
    assert_eq!(s.intersect(&ray), Some(1_500_000));
}

#[test]
fn sphere_behind_origin_is_no_hit() {
    let s = sphere_at(Point3::new(0, 0, 4_000_000), 1_000_000);
    let ray = Ray { origin: Point3::new(0, 0, 0), direction: Vector3::new(0, 0, -1_000_000) };
    assert_eq!(s.intersect(&ray), None);
}

#[test]
fn sphere_off_axis_is_no_hit() {
    let s = sphere_at(Point3::new(5_000_000, 0, -5_000_000), 1_000_000);
    let ray = Ray { origin: Point3::new(0, 0, 0), direction: Vector3::new(0, 0, -1_000_000) };
    assert_eq!(s.intersect(&ray), None);
}

#[test]
fn sphere_normal_points_outward() {
    let s = sphere_at(Point3::new(0, 0, -4_000_000), 1_000_000);
    let hit = Point3::new(0, 0, -3_000_000);
    assert_eq!(s.surface_normal(&hit), Vector3::new(0, 0, 1_000_000));
}

#[test]
fn plane_front_hit_distance() {
    let p = Plane {
        origin: Point3::new(0, 0, -5_000_000),
        normal: Vector3::new(0, 0, -1_000_000),
        color: white(),
        diffuse: 1_000_000,
        specular: 0,
    };
    let ray = Ray { origin: Point3::new(0, 0, 0), direction: Vector3::new(0, 0, -1_000_000) };
    assert_eq!(p.intersect(&ray), Some(5_000_000));
    // the shading normal is the stored normal negated
    assert_eq!(p.surface_normal(&Point3::new(0, 0, -5_000_000)), Vector3::new(0, 0, 1_000_000));
}

#[test]
fn plane_parallel_ray_never_hits() {
    let p = Plane {
        origin: Point3::new(0, -500_000, 0),
        normal: Vector3::new(0, -1_000_000, 0),
        color: white(),
        diffuse: 1_000_000,
        specular: 0,
    };
    let ray = Ray { origin: Point3::new(0, 0, 0), direction: Vector3::new(1_000_000, 0, 0) };
    assert_eq!(p.normal.dot(&ray.direction), 0);
    assert_eq!(p.intersect(&ray), None);
}

#[test]
fn plane_behind_origin_is_no_hit() {
    let p = Plane {
        origin: Point3::new(0, 0, 5_000_000),
        normal: Vector3::new(0, 0, -1_000_000),
        color: white(),
        diffuse: 1_000_000,
        specular: 0,
    };
    let ray = Ray { origin: Point3::new(0, 0, 0), direction: Vector3::new(0, 0, -1_000_000) };
    assert_eq!(p.intersect(&ray), None);
}

#[test]
fn plane_new_normalizes_the_normal() {
    let p = Plane::new(
        Point3::new(0, 0, 0),
        Vector3::new(0, 0, -2_000_000),
        white(),
        1_000_000,
        0,
    );
    assert_eq!(p.normal, Vector3::new(0, 0, -1_000_000));
}

#[test]
fn trace_empty_scene_is_none() {
    let scene = Scene { width: 1600, height: 900, fov: 70_000_000, elements: vec![], lights: vec![] };
    let ray = Ray { origin: Point3::new(0, 0, 0), direction: Vector3::new(0, 0, -1_000_000) };
    assert!(scene.trace(&ray).is_none());
}

#[test]
fn trace_returns_nearest_hit() {
    let near = Element::Sphere(sphere_at(Point3::new(0, 0, -3_000_000), 1_000_000));
    let far = Element::Sphere(sphere_at(Point3::new(0, 0, -8_000_000), 1_000_000));
    let scene = Scene {
        width: 1600,
        height: 900,
        fov: 70_000_000,
        elements: vec![far, near],
        lights: vec![],
    };
    let ray = Ray { origin: Point3::new(0, 0, 0), direction: Vector3::new(0, 0, -1_000_000) };
    let i = scene.trace(&ray).unwrap();
    assert_eq!(i.element, 1);
    assert_eq!(i.distance, 2_000_000);
}

#[test]
fn trace_tie_goes_to_the_first_element() {
    let a = Element::Sphere(sphere_at(Point3::new(0, 0, -3_000_000), 1_000_000));
    let b = Element::Sphere(sphere_at(Point3::new(0, 0, -3_000_000), 1_000_000));
    let scene = Scene {
        width: 1600,
        height: 900,
        fov: 70_000_000,
        elements: vec![a, b],
        lights: vec![],
    };
    let ray = Ray { origin: Point3::new(0, 0, 0), direction: Vector3::new(0, 0, -1_000_000) };
    let i = scene.trace(&ray).unwrap();
    assert_eq!(i.element, 0);
    assert_eq!(i.distance, 2_000_000);
}
