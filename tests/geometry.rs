use rand::{RngCore, SeedableRng};
use rand_wyrand::WyRand;
use rrrrrrr::{
    draw, generate_ray, nearest_hit, resolve, shade_normals, shade_raycast, shade_raytrace, MAX_DEPTH, Light, LightKind, Material, Primitive, Ray, Scene,
    SceneError, Vec3, LIMIT, ONE, SCENE_COUNT,
};

fn v(x: i64, y: i64, z: i64) -> Vec3 {
    Vec3 { x, y, z }
}

fn forward() -> Ray {
    Ray { origin: v(0, 0, 0), dir: v(0, 0, -ONE), t_max: LIMIT }
}

#[test]
fn sphere_hit_distance_and_normal() {
    let prims = vec![Primitive::Sphere { center: v(0, 0, -5 * ONE), radius: ONE, material: 0 }];
    let h = nearest_hit(&prims, &forward()).unwrap();
    assert_eq!(h.t, 4 * ONE);
    assert_eq!(h.point, v(0, 0, -4 * ONE));
    assert_eq!(h.normal, v(0, 0, ONE));
    assert_eq!(h.index, 0);
}

#[test]
fn plane_hit_and_parallel_miss() {
    let prims = vec![Primitive::Plane { point: v(0, 0, -5 * ONE), normal: v(0, 0, ONE), material: 0 }];
    assert_eq!(nearest_hit(&prims, &forward()).unwrap().t, 5 * ONE);
    let sideways = Ray { origin: v(0, 0, 0), dir: v(ONE, 0, 0), t_max: LIMIT };
    assert!(nearest_hit(&prims, &sideways).is_none());
}

#[test]
fn triangle_hit_inside_and_miss_outside() {
    let tri = Primitive::Triangle {
        v0: v(-ONE, -ONE, -3 * ONE),
        v1: v(ONE, -ONE, -3 * ONE),
        v2: v(0, ONE, -3 * ONE),
        material: 0,
    };
    let h = nearest_hit(&vec![tri], &forward()).unwrap();
    assert!((h.t - 3 * ONE).abs() <= 4);
    assert_eq!(h.normal, v(0, 0, ONE));
    let off = Ray { origin: v(5 * ONE, 0, 0), dir: v(0, 0, -ONE), t_max: LIMIT };
    assert!(nearest_hit(&vec![tri], &off).is_none());
}

#[test]
fn miss_is_none() {
    let prims = vec![Primitive::Sphere { center: v(0, 0, 5 * ONE), radius: ONE, material: 0 }];
    assert!(nearest_hit(&prims, &forward()).is_none());
    assert!(nearest_hit(&Vec::new(), &forward()).is_none());
}

#[test]
fn tie_goes_to_first_declared() {
    let s = Primitive::Sphere { center: v(0, 0, -5 * ONE), radius: ONE, material: 0 };
    let t = Primitive::Sphere { center: v(0, 0, -5 * ONE), radius: ONE, material: 1 };
    let h = nearest_hit(&vec![s, t], &forward()).unwrap();
    assert_eq!(h.index, 0);
    assert_eq!(h.material, 0);
}

#[test]
fn nearer_primitive_wins() {
    let far = Primitive::Sphere { center: v(0, 0, -9 * ONE), radius: ONE, material: 0 };
    let near = Primitive::Sphere { center: v(0, 0, -5 * ONE), radius: ONE, material: 1 };
    let h = nearest_hit(&vec![far, near], &forward()).unwrap();
    assert_eq!(h.index, 1);
}

#[test]
fn ray_span_limits_hits() {
    let prims = vec![Primitive::Sphere { center: v(0, 0, -5 * ONE), radius: ONE, material: 0 }];
    let short = Ray { origin: v(0, 0, 0), dir: v(0, 0, -ONE), t_max: 3 * ONE };
    assert!(nearest_hit(&prims, &short).is_none());
}

#[test]
fn center_ray_of_single_pixel_looks_forward() {
    let r = generate_ray(0, 0, 1, 1, ONE / 2, ONE / 2);
    assert_eq!(r, Ray { origin: v(0, 0, 0), dir: v(0, 0, -ONE), t_max: LIMIT });
}

#[test]
fn corner_ray_points_up_left() {
    let r = generate_ray(0, 0, 2, 2, ONE / 2, ONE / 2);
    assert!(r.dir.x < 0 && r.dir.y > 0 && r.dir.z < 0);
    assert_eq!(r.dir.x, -r.dir.y);
}

#[test]
fn resolve_catalog_bounds() {
    assert_eq!(SCENE_COUNT, 10);
    for i in 0..SCENE_COUNT {
        assert!(resolve(i).is_ok());
    }
    assert_eq!(resolve(10).err(), Some(SceneError::InvalidSceneIndex));
    let s = resolve(0).unwrap();
    assert_eq!(s.prims.len(), 1);
    assert!(matches!(s.prims[0], Primitive::Plane { .. }));
}

fn white() -> Material {
    Material { albedo: v(ONE, ONE, ONE), reflectivity: 0, roughness: 0, emission: v(0, 0, 0) }
}

fn lamp() -> Light {
    Light { kind: LightKind::Point, vector: v(0, 2 * ONE, 0), color: v(ONE, ONE, ONE), intensity: ONE }
}

#[test]
fn normals_color_unchanged_when_other_primitive_moves() {
    let plane = Primitive::Plane { point: v(0, 0, -5 * ONE), normal: v(0, 0, ONE), material: 0 };
    let a = Scene {
        prims: vec![plane, Primitive::Sphere { center: v(3 * ONE, 0, -4 * ONE), radius: ONE, material: 0 }],
        materials: vec![white()],
        lights: vec![lamp()],
    };
    let b = Scene {
        prims: vec![plane, Primitive::Sphere { center: v(-3 * ONE, 2 * ONE, -4 * ONE), radius: ONE, material: 0 }],
        materials: vec![white()],
        lights: vec![lamp()],
    };
    let ca = shade_normals(&a, &forward());
    let cb = shade_normals(&b, &forward());
    assert_eq!(ca, cb);
    assert_eq!(ca, v(ONE / 2, ONE / 2, ONE));
}

#[test]
fn draw_uses_wyrand_output() {
    let state: u64 = 0x2545_F491_4F6C_DD1D;
    let expected = (WyRand::seed_from_u64(state).next_u64() >> 48) as i64;
    assert_eq!(draw(0, 0, 0), expected);
    assert!(draw(0, 0, 0) < ONE);
}

#[test]
fn raycast_directional_light_exact() {
    let s = Scene {
        prims: vec![Primitive::Plane { point: v(0, 0, -5 * ONE), normal: v(0, 0, ONE), material: 0 }],
        materials: vec![white()],
        lights: vec![Light { kind: LightKind::Directional, vector: v(0, 0, ONE), color: v(ONE, ONE, ONE), intensity: ONE }],
    };
    let c = shade_raycast(&s, &forward());
    assert_eq!(c, v(ONE + ONE / 16, ONE + ONE / 16, ONE + ONE / 16));
}

#[test]
fn raycast_light_behind_surface_gives_ambient() {
    let s = Scene {
        prims: vec![Primitive::Plane { point: v(0, 0, -5 * ONE), normal: v(0, 0, ONE), material: 0 }],
        materials: vec![white()],
        lights: vec![Light { kind: LightKind::Directional, vector: v(0, 0, -ONE), color: v(ONE, ONE, ONE), intensity: ONE }],
    };
    assert_eq!(shade_raycast(&s, &forward()), v(ONE / 16, ONE / 16, ONE / 16));
}

#[test]
fn raytrace_at_depth_bound_is_raycast() {
    let s = resolve(6).unwrap();
    for (x, y) in [(0usize, 0usize), (3, 4), (7, 7)] {
        let r = generate_ray(x, y, 8, 8, ONE / 2, ONE / 2);
        assert_eq!(shade_raytrace(&s, &r, MAX_DEPTH), shade_raycast(&s, &r));
    }
    let r = generate_ray(4, 4, 8, 8, ONE / 2, ONE / 2);
    assert_ne!(shade_raytrace(&s, &r, 0), shade_raycast(&s, &r));
}
