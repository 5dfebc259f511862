use smr::color::{black, channel_to_byte, ftou, white, Color};
use smr::fixed::{fx_max0, fx_mul};
use smr::render::{accumulate_color, cast_ray, render, scale_colors, Ray};
use smr::scene::{
    DirectionalLight, Element, Intersectable, Light, Plane, Scene, Sphere, SphericalLight,
    MAX_DEPTH,
};
use smr::space::{Point3, Vector3};

fn one_sphere_scene() -> Scene {
    Scene {
        width: 1600,
        height: 900,
        fov: 70_000_000,
        elements: vec![Element::Sphere(Sphere {
            center: Point3::new(0, 0, -4_000_000),
            radius: 1_000_000,
            color: white(),
            diffuse: 1_000_000,
            specular: 0,
        })],
        lights: vec![Light::Directional(DirectionalLight {
            direction: Vector3::new(0, -1_000_000, 0),
            color: white(),
            intensity: 1_000_000,
        })],
    }
}

#[test]
fn scale_colors_multiplies_channels() {
    let c = Color { r: 500_000, g: 1_000_000, b: 0, a: 1_000_000 };
    let lit = scale_colors(&c, &white(), 500_000);
    assert_eq!(lit, Color { r: 250_000, g: 500_000, b: 0, a: 500_000 });
}

#[test]
fn accumulate_clamps_to_one() {
    let c = Color { r: 700_000, g: 700_000, b: 0, a: 1_000_000 };
    let acc = accumulate_color(&c, &c);
    assert_eq!(acc, Color { r: 1_000_000, g: 1_000_000, b: 0, a: 1_000_000 });
}

#[test]
fn accumulate_black_is_identity() {
    let c = Color { r: 250_000, g: 999_999, b: 0, a: 1_000_000 };
    assert_eq!(accumulate_color(&c, &black()), c);
}

#[test]
fn cast_past_depth_cap_is_black() {
    let scene = one_sphere_scene();
    let ray = Ray { origin: Point3::new(0, 0, 0), direction: Vector3::new(0, 0, -1_000_000) };
    assert_eq!(cast_ray(&scene, &ray, MAX_DEPTH + 1), black());
}

#[test]
fn spherical_intensity_follows_inverse_square() {
    let light = Light::Spherical(SphericalLight {
        position: Point3::new(0, 0, 0),
        color: white(),
        intensity: 500_000_000,
    });
    let hit = Point3::new(0, 0, -2_000_000);
    // 500 / (4 * pi * 2^2) = 9.94718394..., on the grid with pi = 3.141593
    assert_eq!(light.intensity(&hit), 9_947_182);
    assert_eq!(light.distance(&hit), 2_000_000);
}

#[test]
fn directional_light_is_constant_and_unreachable() {
    let light = Light::Directional(DirectionalLight {
        direction: Vector3::new(0, -1_000_000, 0),
        color: white(),
        intensity: 123_456,
    });
    let hit = Point3::new(7_000_000, 0, -2_000_000);
    assert_eq!(light.intensity(&hit), 123_456);
    assert_eq!(light.distance(&hit), i64::MAX);
    assert_eq!(light.direction_from(&hit), Vector3::new(0, 1_000_000, 0));
}

#[test]
fn spherical_light_direction_points_at_the_light() {
    let light = Light::Spherical(SphericalLight {
        position: Point3::new(0, 2_000_000, 0),
        color: white(),
        intensity: 500_000_000,
    });
    assert_eq!(light.direction_from(&Point3::new(0, 0, 0)), Vector3::new(0, 1_000_000, 0));
}

#[test]
fn lit_sphere_pixel_is_lambertian() {
    let scene = one_sphere_scene();
    // a pixel on the upper half of the sphere, where the overhead light lands
    let ray = Ray::create_prime(800, 350, &scene);
    let pixel = cast_ray(&scene, &ray, 0);

    // recompute the expected diffuse term from the public pieces
    let i = scene.trace(&ray).unwrap();
    let hit = ray.origin.plus(&ray.direction.scaled(i.distance));
    let normal = scene.elements[i.element].surface_normal(&hit);
    let light_direction = scene.lights[0].direction_from(&hit);
    let cosine = normal.dot(&light_direction);
    assert!(cosine > 0);

    // white surface, white light, intensity one: the channel is exactly
    // cos * (diffuse / pi)
    let expected = fx_mul(fx_max0(cosine), 318_309);
    assert!(pixel.r > 0);
    assert_eq!(pixel.r, expected);
    assert_eq!(pixel.g, expected);
    assert_eq!(pixel.b, expected);
}

#[test]
fn no_lights_means_black_hits() {
    let mut scene = one_sphere_scene();
    scene.lights = vec![];
    let ray = Ray { origin: Point3::new(0, 0, 0), direction: Vector3::new(0, 0, -1_000_000) };
    assert!(scene.trace(&ray).is_some());
    assert_eq!(cast_ray(&scene, &ray, 0), black());
}

#[test]
fn missing_pixel_is_exactly_black() {
    let scene = one_sphere_scene();
    let ray = Ray::create_prime(0, 0, &scene);
    assert_eq!(cast_ray(&scene, &ray, 0), black());
}

#[test]
fn facing_mirrors_terminate_bounded() {
    let mirror = |origin: Point3, normal: Vector3| {
        Element::Plane(Plane {
            origin,
            normal,
            color: white(),
            diffuse: 0,
            specular: 1_000_000,
        })
    };
    let scene = Scene {
        width: 1600,
        height: 900,
        fov: 70_000_000,
        elements: vec![
            mirror(Point3::new(0, 0, -6_000_000), Vector3::new(0, 0, -1_000_000)),
            mirror(Point3::new(0, 0, 2_000_000), Vector3::new(0, 0, 1_000_000)),
        ],
        lights: vec![Light::Spherical(SphericalLight {
            position: Point3::new(0, 0, -2_000_000),
            color: white(),
            intensity: 500_000_000,
        })],
    };
    let ray = Ray { origin: Point3::new(0, 0, 0), direction: Vector3::new(0, 0, -1_000_000) };
    // the depth cap ends the bounce between the mirrors; without diffuse
    // response the result is black, and every channel stays clamped
    let c = cast_ray(&scene, &ray, 0);
    assert!(0 <= c.r && c.r <= 1_000_000);
    assert!(0 <= c.g && c.g <= 1_000_000);
    assert!(0 <= c.b && c.b <= 1_000_000);
    assert!(0 <= c.a && c.a <= 1_000_000);
    assert_eq!(c, black());
}

#[test]
fn mirror_sphere_reflects_the_lit_floor() {
    // a mirror sphere above a green diffuse floor: a pixel on the sphere's
    // lower half shows the floor's color, scaled through the reflection
    let scene = Scene {
        width: 1600,
        height: 900,
        fov: 70_000_000,
        elements: vec![
            Element::Sphere(Sphere {
                center: Point3::new(0, 500_000, -4_000_000),
                radius: 1_000_000,
                color: white(),
                diffuse: 0,
                specular: 1_000_000,
            }),
            Element::Plane(Plane {
                origin: Point3::new(0, -500_000, 0),
                normal: Vector3::new(0, -1_000_000, 0),
                color: Color { r: 100_000, g: 300_000, b: 100_000, a: 1_000_000 },
                diffuse: 1_000_000,
                specular: 0,
            }),
        ],
        lights: vec![Light::Spherical(SphericalLight {
            position: Point3::new(0, 10_000_000, 4_000_000),
            color: white(),
            intensity: 500_000_000,
        })],
    };
    let ray = Ray::create_prime(800, 470, &scene);
    let pixel = cast_ray(&scene, &ray, 0);
    assert_eq!(pixel, Color { r: 6_529, g: 19_587, b: 6_529, a: 1_000_000 });
    // the floor's 1:3:1 color proportions survive the white mirror
    assert_eq!(pixel.g, 3 * pixel.r);
}

#[test]
fn render_fills_the_frame_row_major() {
    let mut scene = one_sphere_scene();
    scene.width = 4;
    scene.height = 2;
    let frame = render(&scene);
    assert_eq!(frame.len(), 8);
    for y in 0..2u32 {
        for x in 0..4u32 {
            let ray = Ray::create_prime(x, y, &scene);
            let expected = cast_ray(&scene, &ray, 0);
            assert_eq!(frame[(y * 4 + x) as usize], expected);
        }
    }
}

#[test]
fn colors_to_bytes() {
    assert_eq!(channel_to_byte(1_000_000), 255);
    assert_eq!(channel_to_byte(500_000), 127);
    assert_eq!(channel_to_byte(-5), 0);
    assert_eq!(channel_to_byte(2_000_000), 255);
    assert_eq!(ftou(&white()), (255, 255, 255, 255));
    assert_eq!(ftou(&black()), (0, 0, 0, 255));
}
