//! Rays, the camera, and the recursive shading engine.

use vstd::prelude::*;
use crate::color::{black, black_spec, clamp01, clamp01_spec, color_clamped, white, white_spec, Color};
use crate::fixed::{
    clip, fx_add, fx_add_spec, fx_div, fx_div_spec, fx_max0, fx_max0_spec, fx_mul, fx_mul_spec,
    fx_sub, fx_sub_spec, fx_tan, fx_tan_spec, PI_FX, SCALE,
};
use crate::scene::{Element, Intersectable, Light, Scene, MAX_DEPTH, SHADOW_BIAS};
use crate::space::{Point3, Vector3};

verus! {

/// A half-line through space: an origin and a unit-length direction.
#[derive(Clone, Copy, Debug, PartialEq, Eq, Structural)]
pub struct Ray {
    pub origin: Point3,
    pub direction: Vector3,
}

impl Ray {
    /// Value of the primary ray for pixel `(x, y)`: the pixel center mapped
    /// to device coordinates in [-1, 1] (row zero at the top, so the
    /// vertical axis flips), scaled by the aspect ratio and the tangent of
    /// half the field of view, and fired from the camera at the origin down
    /// the negative z axis.
    pub open spec fn create_prime_spec(x: u32, y: u32, scene: Scene) -> Ray {
        let wf = clip(scene.width * SCALE);
        let hf = clip(scene.height * SCALE);
        let xf = clip(x * SCALE + 500_000);
        let yf = clip(y * SCALE + 500_000);
        let sensor_x0 = fx_sub_spec(
            fx_mul_spec(fx_div_spec(xf, wf), 2_000_000),
            1_000_000,
        );
        let sensor_y0 = fx_sub_spec(
            1_000_000,
            fx_mul_spec(fx_div_spec(yf, hf), 2_000_000),
        );
        let radians = fx_div_spec(fx_mul_spec(scene.fov, PI_FX), 180_000_000);
        let fov_adjustment = fx_tan_spec(fx_div_spec(radians, 2_000_000));
        let aspect = fx_div_spec(wf, hf);
        let sensor_x = fx_mul_spec(fx_mul_spec(sensor_x0, aspect), fov_adjustment);
        let sensor_y = fx_mul_spec(sensor_y0, fov_adjustment);
        Ray {
            origin: Point3 { x: 0, y: 0, z: 0 },
            direction: (Vector3 { x: sensor_x, y: sensor_y, z: -1_000_000i64 }).normalized_spec(),
        }
    }

    /// The primary ray for pixel `(x, y)`. The aspect-ratio arithmetic
    /// assumes a frame wider than it is tall; a frame that is not is a
    /// configuration fault of the scene builder, kept out by precondition.
    pub fn create_prime(x: u32, y: u32, scene: &Scene) -> (r: Ray)
        requires
            scene.width > scene.height,
        ensures
            r == Ray::create_prime_spec(x, y, *scene),
    {
        let wf: i64 = scene.width as i64 * SCALE;
        let hf: i64 = scene.height as i64 * SCALE;
        let xf: i64 = x as i64 * SCALE + 500_000;
        let yf: i64 = y as i64 * SCALE + 500_000;
        let sensor_x0 = fx_sub(fx_mul(fx_div(xf, wf), 2_000_000), 1_000_000);
        let sensor_y0 = fx_sub(1_000_000, fx_mul(fx_div(yf, hf), 2_000_000));
        let radians = fx_div(fx_mul(scene.fov, PI_FX), 180_000_000);
        let fov_adjustment = fx_tan(fx_div(radians, 2_000_000));
        let aspect = fx_div(wf, hf);
        let sensor_x = fx_mul(fx_mul(sensor_x0, aspect), fov_adjustment);
        let sensor_y = fx_mul(sensor_y0, fov_adjustment);
        let direction = Vector3 { x: sensor_x, y: sensor_y, z: -1_000_000 };
        Ray { origin: Point3 { x: 0, y: 0, z: 0 }, direction: direction.normalized() }
    }
}

/// Value of a surface color lit by a light color at a given strength: the
/// channels multiplied pairwise, then scaled by `factor`.
pub open spec fn scale_colors_spec(ec: Color, lc: Color, factor: i64) -> Color {
    Color {
        r: fx_mul_spec(fx_mul_spec(ec.r, lc.r), factor),
        g: fx_mul_spec(fx_mul_spec(ec.g, lc.g), factor),
        b: fx_mul_spec(fx_mul_spec(ec.b, lc.b), factor),
        a: fx_mul_spec(fx_mul_spec(ec.a, lc.a), factor),
    }
}

/// A surface color lit by a light color at a given strength.
pub fn scale_colors(ec: &Color, lc: &Color, factor: i64) -> (r: Color)
    ensures
        r == scale_colors_spec(*ec, *lc, factor),
{
    Color {
        r: fx_mul(fx_mul(ec.r, lc.r), factor),
        g: fx_mul(fx_mul(ec.g, lc.g), factor),
        b: fx_mul(fx_mul(ec.b, lc.b), factor),
        a: fx_mul(fx_mul(ec.a, lc.a), factor),
    }
}

/// Value of one accumulation step: the channel-wise sum, clamped to [0, 1]
/// after every step (a saturating add, never a wrap-around).
pub open spec fn accumulate_color_spec(acc: Color, lit: Color) -> Color {
    Color {
        r: clamp01_spec(fx_add_spec(acc.r, lit.r)),
        g: clamp01_spec(fx_add_spec(acc.g, lit.g)),
        b: clamp01_spec(fx_add_spec(acc.b, lit.b)),
        a: clamp01_spec(fx_add_spec(acc.a, lit.a)),
    }
}

/// One accumulation step of the shading loop.
pub fn accumulate_color(acc: &Color, lit: &Color) -> (r: Color)
    ensures
        r == accumulate_color_spec(*acc, *lit),
{
    Color {
        r: clamp01(fx_add(acc.r, lit.r)),
        g: clamp01(fx_add(acc.g, lit.g)),
        b: clamp01(fx_add(acc.b, lit.b)),
        a: clamp01(fx_add(acc.a, lit.a)),
    }
}

/// Accumulating black onto an already-clamped color leaves it unchanged.
/// Black carries an opaque alpha channel, so the law asks the accumulator's
/// alpha to be opaque already, as it is for every color the engine builds;
/// the color channels gain exactly zero and the clamp returns them as they
/// were.
pub proof fn lemma_accumulate_black_identity(c: Color)
    requires
        color_clamped(c),
        c.a == SCALE,
    ensures
        accumulate_color_spec(c, black_spec()) == c,
{
}

/// Value of the origin shared by secondary rays: the hit point pushed a
/// shadow bias along the surface normal, so the new ray does not meet the
/// surface it starts on.
pub open spec fn biased_origin_spec(hit_point: Point3, surface_normal: Vector3) -> Point3 {
    hit_point.plus_spec(surface_normal.scaled_spec(SHADOW_BIAS))
}

/// Value of the mirror reflection of a ray at a hit point: the incoming
/// direction less twice its projection on the surface normal, fired from the
/// biased origin.
pub open spec fn reflection_ray_spec(ray: Ray, hit_point: Point3, surface_normal: Vector3) -> Ray {
    Ray {
        origin: biased_origin_spec(hit_point, surface_normal),
        direction: ray.direction.minus_spec(
            surface_normal.scaled_spec(
                fx_mul_spec(2_000_000, ray.direction.dot_spec(surface_normal)),
            ),
        ),
    }
}

/// Value of one light's diffuse contribution at a hit point. A shadow ray
/// runs from the biased origin toward the light; the point is lit when
/// nothing occludes it, or the nearest occluder stands farther away than the
/// light itself. The Lambertian cosine term is clamped at zero — light from
/// behind the surface contributes nothing — and the diffuse weight is spread
/// over pi to keep the reflected energy bounded by the incoming energy.
pub open spec fn diffuse_term_spec(
    scene: Scene,
    e: Element,
    light: Light,
    hit_point: Point3,
    surface_normal: Vector3,
) -> Color {
    let light_direction = light.direction_from_spec(hit_point);
    let shadow_ray = Ray {
        origin: biased_origin_spec(hit_point, surface_normal),
        direction: light_direction,
    };
    let shadow_intersection = scene.trace_spec(shadow_ray);
    let in_light = match shadow_intersection {
        None => true,
        Some(si) => si.distance > light.distance_spec(hit_point),
    };
    let light_intensity = if in_light {
        light.intensity_spec(hit_point)
    } else {
        0
    };
    let light_power = fx_mul_spec(
        fx_max0_spec(surface_normal.dot_spec(light_direction)),
        light_intensity,
    );
    let diffuse_proportion = fx_div_spec(e.diffuse_spec(), PI_FX);
    scale_colors_spec(
        e.color_spec(),
        light.color_spec(),
        fx_mul_spec(light_power, diffuse_proportion),
    )
}

/// Value of the shading accumulator after the first `k` lights: for each
/// light in order, the diffuse term is accumulated when the element's
/// diffuse weight is positive, and the recursive specular reflection, scaled
/// by the specular weight, when that weight is positive; every accumulation
/// clamps. The element at `idx` is the one the traced ray hit.
pub open spec fn shade_upto(
    scene: Scene,
    ray: Ray,
    idx: int,
    hit_point: Point3,
    surface_normal: Vector3,
    depth: u8,
    k: nat,
) -> Color
    decreases MAX_DEPTH + 1 - depth, k,
        when depth <= MAX_DEPTH
{
    if k == 0 {
        black_spec()
    } else {
        let prev = shade_upto(scene, ray, idx, hit_point, surface_normal, depth, (k - 1) as nat);
        let e = scene.elements@[idx];
        let light = scene.lights@[k - 1];
        let after_diffuse = if e.diffuse_spec() > 0 {
            accumulate_color_spec(
                prev,
                diffuse_term_spec(scene, e, light, hit_point, surface_normal),
            )
        } else {
            prev
        };
        if e.specular_spec() > 0 {
            let reflected = cast_ray_spec(
                scene,
                reflection_ray_spec(ray, hit_point, surface_normal),
                (depth + 1) as u8,
            );
            accumulate_color_spec(
                after_diffuse,
                scale_colors_spec(white_spec(), reflected, e.specular_spec()),
            )
        } else {
            after_diffuse
        }
    }
}

/// Value of the recursive trace: black past the recursion ceiling and on a
/// miss; on a hit, the shading accumulator over all lights at the hit point.
pub open spec fn cast_ray_spec(scene: Scene, ray: Ray, depth: u8) -> Color
    decreases MAX_DEPTH + 1 - depth, scene.lights@.len() + 1,
{
    if depth > MAX_DEPTH {
        black_spec()
    } else {
        match scene.trace_spec(ray) {
            None => black_spec(),
            Some(i) => {
                let hit_point = ray.origin.plus_spec(ray.direction.scaled_spec(i.distance));
                let surface_normal = scene.elements@[i.element as int].surface_normal_spec(
                    hit_point,
                );
                shade_upto(
                    scene,
                    ray,
                    i.element as int,
                    hit_point,
                    surface_normal,
                    depth,
                    scene.lights@.len(),
                )
            },
        }
    }
}

/// Casts `ray` into `scene` and returns its color: the recursive
/// intersect-shade-reflect evaluation, bounded by `MAX_DEPTH`.
pub fn cast_ray(scene: &Scene, ray: &Ray, depth: u8) -> (r: Color)
    ensures
        r == cast_ray_spec(*scene, *ray, depth),
        color_clamped(r),
    decreases MAX_DEPTH + 1 - depth,
{
    proof {
        lemma_cast_ray_clamped(*scene, *ray, depth);
    }
    if depth > MAX_DEPTH {
        return black();
    }
    let intersection = scene.trace(ray);
    match intersection {
        None => black(),
        Some(i) => {
            let hit_point = ray.origin.plus(&ray.direction.scaled(i.distance));
            let surface_normal = scene.elements[i.element].surface_normal(&hit_point);
            let mut color_acc: Color = black();
            let mut k: usize = 0;
            while k < scene.lights.len()
                invariant
                    depth <= MAX_DEPTH,
                    k <= scene.lights@.len(),
                    scene.trace_spec(*ray) == Some(i),
                    i.element < scene.elements@.len(),
                    hit_point == ray.origin.plus_spec(ray.direction.scaled_spec(i.distance)),
                    surface_normal == scene.elements@[i.element as int].surface_normal_spec(
                        hit_point,
                    ),
                    color_acc == shade_upto(
                        *scene,
                        *ray,
                        i.element as int,
                        hit_point,
                        surface_normal,
                        depth,
                        k as nat,
                    ),
                decreases scene.lights@.len() - k,
            {
                let light = scene.lights[k];
                let e = scene.elements[i.element];
                if e.diffuse() > 0 {
                    let light_direction = light.direction_from(&hit_point);
                    let shadow_ray = Ray {
                        origin: hit_point.plus(&surface_normal.scaled(SHADOW_BIAS)),
                        direction: light_direction,
                    };
                    let shadow_intersection = scene.trace(&shadow_ray);
                    let in_light = match &shadow_intersection {
                        None => true,
                        Some(si) => si.distance > light.distance(&hit_point),
                    };
                    let light_intensity = if in_light {
                        light.intensity(&hit_point)
                    } else {
                        0
                    };
                    let light_power = fx_mul(
                        fx_max0(surface_normal.dot(&light_direction)),
                        light_intensity,
                    );
                    let diffuse_proportion = fx_div(e.diffuse(), PI_FX);
                    let diffuse = scale_colors(
                        &e.color(),
                        &light.color(),
                        fx_mul(light_power, diffuse_proportion),
                    );
                    color_acc = accumulate_color(&color_acc, &diffuse);
                }
                if e.specular() > 0 {
                    let reflection_ray = Ray {
                        origin: hit_point.plus(&surface_normal.scaled(SHADOW_BIAS)),
                        direction: ray.direction.minus(
                            &surface_normal.scaled(
                                fx_mul(2_000_000, ray.direction.dot(&surface_normal)),
                            ),
                        ),
                    };
                    let specular = cast_ray(scene, &reflection_ray, depth + 1);
                    color_acc = accumulate_color(
                        &color_acc,
                        &scale_colors(&white(), &specular, e.specular()),
                    );
                }
                k = k + 1;
            }
            color_acc
        },
    }
}

/// A ray that hits nothing shades black.
pub proof fn lemma_miss_is_black(scene: Scene, ray: Ray, depth: u8)
    requires
        scene.trace_spec(ray) is None,
    ensures
        cast_ray_spec(scene, ray, depth) == black_spec(),
{
}

/// Without lights, every hit shades black: the accumulator has nothing to
/// gather.
pub proof fn lemma_no_lights_is_black(scene: Scene, ray: Ray, depth: u8)
    requires
        scene.lights@.len() == 0,
    ensures
        cast_ray_spec(scene, ray, depth) == black_spec(),
{
}

/// Past the recursion ceiling the trace returns black whatever the scene
/// holds: the depth cap bounds mutually reflective surfaces.
pub proof fn lemma_depth_cap_black(scene: Scene, ray: Ray, depth: u8)
    requires
        depth > MAX_DEPTH,
    ensures
        cast_ray_spec(scene, ray, depth) == black_spec(),
{
}

/// The shading accumulator stays clamped: it starts black and every
/// accumulation step clamps each channel.
pub proof fn lemma_shade_upto_clamped(
    scene: Scene,
    ray: Ray,
    idx: int,
    hit_point: Point3,
    surface_normal: Vector3,
    depth: u8,
    k: nat,
)
    requires
        depth <= MAX_DEPTH,
    ensures
        color_clamped(shade_upto(scene, ray, idx, hit_point, surface_normal, depth, k)),
    decreases k,
{
    if k > 0 {
        lemma_shade_upto_clamped(
            scene,
            ray,
            idx,
            hit_point,
            surface_normal,
            depth,
            (k - 1) as nat,
        );
    }
}

/// Renders the whole frame: one primary ray per pixel, each traced from
/// depth zero, the colors collected in row-major order (the pixel at column
/// `x` of row `y` stands at index `y * width + x`). Every pixel is written
/// exactly once; encoding the colors for an image sink is the caller's
/// concern.
/// The pixel a flat row-major index stands for: `j = y * width + x` holds
/// the pixel at column `j % width` of row `j / width`.
pub open spec fn pixel_at_spec(scene: Scene, j: int) -> Color {
    cast_ray_spec(
        scene,
        Ray::create_prime_spec(
            (j % (scene.width as int)) as u32,
            (j / (scene.width as int)) as u32,
            scene,
        ),
        0,
    )
}

pub fn render(scene: &Scene) -> (out: Vec<Color>)
    requires
        scene.width > scene.height,
        scene.width * scene.height <= usize::MAX,
    ensures
        out@.len() == scene.width * scene.height,
        forall|j: int| 0 <= j < out@.len() ==> #[trigger] out@[j] == pixel_at_spec(*scene, j),
{
    let mut out: Vec<Color> = Vec::new();
    let mut y: u32 = 0;
    while y < scene.height
        invariant
            scene.width > scene.height,
            y <= scene.height,
            out@.len() == (y as int) * (scene.width as int),
            forall|j: int| 0 <= j < out@.len() ==> #[trigger] out@[j] == pixel_at_spec(*scene, j),
        decreases scene.height - y,
    {
        let mut x: u32 = 0;
        while x < scene.width
            invariant
                scene.width > scene.height,
                y < scene.height,
                x <= scene.width,
                out@.len() == (y as int) * (scene.width as int) + (x as int),
                forall|j: int|
                    0 <= j < out@.len() ==> #[trigger] out@[j] == pixel_at_spec(*scene, j),
            decreases scene.width - x,
        {
            let ray = Ray::create_prime(x, y, scene);
            let pixel = cast_ray(scene, &ray, 0);
            proof {
                vstd::arithmetic::div_mod::lemma_fundamental_div_mod_converse(
                    out@.len() as int,
                    scene.width as int,
                    y as int,
                    x as int,
                );
            }
            out.push(pixel);
            x = x + 1;
        }
        proof {
            assert(((y as int) + 1) * (scene.width as int) == (y as int) * (scene.width as int) + (
            scene.width as int)) by (nonlinear_arith);
        }
        y = y + 1;
    }
    proof {
        assert((scene.height as int) * (scene.width as int) == (scene.width as int) * (
        scene.height as int)) by (nonlinear_arith);
    }
    out
}

/// Whatever the scene, the ray and the depth, the traced color is bounded:
/// every channel lies within the clamped range [0, 1].
pub proof fn lemma_cast_ray_clamped(scene: Scene, ray: Ray, depth: u8)
    ensures
        color_clamped(cast_ray_spec(scene, ray, depth)),
{
    if depth <= MAX_DEPTH {
        match scene.trace_spec(ray) {
            None => {},
            Some(i) => {
                let hit_point = ray.origin.plus_spec(ray.direction.scaled_spec(i.distance));
                let surface_normal = scene.elements@[i.element as int].surface_normal_spec(
                    hit_point,
                );
                lemma_shade_upto_clamped(
                    scene,
                    ray,
                    i.element as int,
                    hit_point,
                    surface_normal,
                    depth,
                    scene.lights@.len(),
                );
            },
        }
    }
}

} // verus!
