use vstd::prelude::*;
use crate::fixed::{add_spec, div_spec, fadd, fdiv, fmax, fmul, fsub, max_spec, mul_spec, sub_spec, LIMIT, ONE};
use crate::geometry::{
    nearest_hit, nearest_hit_spec, occluded, occluded_spec, Hit, Primitive, Ray,
};
use crate::rng::{draw, draw_spec};
use crate::scene::{Light, LightKind, Material, Scene, SceneView};
use crate::vec3::{
    dot_spec, length_spec, normalize_spec, v3, vadd_spec, vmul_spec, vscale_spec, vsub_spec, Vec3,
};

verus! {

/// The closed set of shading policies.
#[derive(Clone, Copy, Debug, PartialEq, Eq, Structural)]
pub enum RenderMode {
    Normals,
    Raycast,
    Raytrace,
    Pathtracing,
}

/// Largest recursion depth of mirror reflections in `Raytrace`.
pub const MAX_DEPTH: u32 = 5;

/// Depth from which `Pathtracing` applies Russian roulette.
pub const ROULETTE_DEPTH: u32 = 3;

/// Depth at which a path ends whatever the roulette drew.
pub const MAX_PATH_DEPTH: u32 = 8;

/// Weight of the albedo that every lit surface shows without direct light.
pub const AMBIENT: i64 = 4096;

/// Distance along the normal by which secondary rays leave a surface.
pub const SURFACE_OFFSET: i64 = 256;

/// Least survival probability of the roulette.
pub const MIN_SURVIVAL: i64 = 4096;

/// Colour of rays that leave the scene.
pub open spec fn background() -> Vec3 {
    v3(12288, 16384, 24576)
}

pub fn background_exec() -> (r: Vec3)
    ensures
        r == background(),
{
    Vec3::new(12288, 16384, 24576)
}

/// A unit normal mapped from `[-1, 1]` to `[0, 1]` per channel.
pub open spec fn normal_color(n: Vec3) -> Vec3 {
    v3(
        mul_spec(add_spec(n.x as int, ONE as int), ONE / 2),
        mul_spec(add_spec(n.y as int, ONE as int), ONE / 2),
        mul_spec(add_spec(n.z as int, ONE as int), ONE / 2),
    )
}

pub open spec fn material_at(sv: SceneView, h: Hit) -> Material {
    sv.materials[h.material as int]
}

/// Start of a secondary ray: the hit point moved off the surface along its normal.
pub open spec fn lifted(h: Hit) -> Vec3 {
    vadd_spec(h.point, vscale_spec(h.normal, SURFACE_OFFSET as int))
}

/// The ray from a hit toward a light, ending at the light for a point light.
pub open spec fn shadow_ray(h: Hit, l: Light) -> Ray {
    let o = lifted(h);
    match l.kind {
        LightKind::Point => {
            let d = vsub_spec(l.vector, o);
            Ray { origin: o, dir: normalize_spec(d), t_max: length_spec(d) as i64 }
        },
        LightKind::Directional => Ray { origin: o, dir: l.vector, t_max: LIMIT },
    }
}

/// Attenuation with distance: the squared distance of a point light, at least one.
pub open spec fn falloff(l: Light, ray: Ray) -> int {
    match l.kind {
        LightKind::Point => max_spec(ONE as int, mul_spec(ray.t_max as int, ray.t_max as int)),
        LightKind::Directional => ONE as int,
    }
}

/// What one light adds at a hit: nothing when the light is behind the surface
/// or anything lies between; else albedo times light colour, times intensity
/// and the cosine of incidence, over the falloff.
pub open spec fn light_contribution(prims: Seq<Primitive>, albedo: Vec3, h: Hit, l: Light) -> Vec3 {
    let ray = shadow_ray(h, l);
    let cos = dot_spec(h.normal, ray.dir);
    if cos <= 0 || occluded_spec(prims, ray) {
        v3(0, 0, 0)
    } else {
        vscale_spec(
            vmul_spec(albedo, l.color),
            div_spec(mul_spec(l.intensity as int, cos), falloff(l, ray)),
        )
    }
}

/// Direct light of the first `n` lights at a hit.
pub open spec fn direct_upto(sv: SceneView, albedo: Vec3, h: Hit, n: nat) -> Vec3
    decreases n,
{
    if n == 0 {
        v3(0, 0, 0)
    } else {
        vadd_spec(
            direct_upto(sv, albedo, h, (n - 1) as nat),
            light_contribution(sv.prims, albedo, h, sv.lights[n - 1]),
        )
    }
}

pub open spec fn ambient(albedo: Vec3) -> Vec3 {
    vscale_spec(albedo, AMBIENT as int)
}

/// Ambient plus direct light at a hit, without any further bounce.
pub open spec fn local_color(sv: SceneView, h: Hit) -> Vec3 {
    let albedo = material_at(sv, h).albedo;
    vadd_spec(ambient(albedo), direct_upto(sv, albedo, h, sv.lights.len()))
}

pub open spec fn normals_spec(sv: SceneView, ray: Ray) -> Vec3 {
    match nearest_hit_spec(sv.prims, ray) {
        None => background(),
        Some(h) => normal_color(h.normal),
    }
}

pub open spec fn raycast_spec(sv: SceneView, ray: Ray) -> Vec3 {
    match nearest_hit_spec(sv.prims, ray) {
        None => background(),
        Some(h) => local_color(sv, h),
    }
}

/// Mirror image of `d` about the plane with unit normal `n`.
pub open spec fn reflect_spec(d: Vec3, n: Vec3) -> Vec3 {
    let k = dot_spec(d, n);
    normalize_spec(vsub_spec(d, vscale_spec(n, add_spec(k, k))))
}

pub open spec fn reflected_ray(ray: Ray, h: Hit) -> Ray {
    Ray { origin: lifted(h), dir: reflect_spec(ray.dir, h.normal), t_max: LIMIT }
}

/// `a` and `b` mixed with weight `k` on `b`.
pub open spec fn blend(a: Vec3, b: Vec3, k: int) -> Vec3 {
    vadd_spec(vscale_spec(a, sub_spec(ONE as int, k)), vscale_spec(b, k))
}

pub open spec fn trace_spec(sv: SceneView, ray: Ray, depth: int) -> Vec3
    decreases MAX_DEPTH - depth,
{
    match nearest_hit_spec(sv.prims, ray) {
        None => background(),
        Some(h) => {
            let local = local_color(sv, h);
            let k = material_at(sv, h).reflectivity;
            if k > 0 && depth < MAX_DEPTH {
                blend(local, trace_spec(sv, reflected_ray(ray, h), depth + 1), k as int)
            } else {
                local
            }
        },
    }
}

/// Probability that a path goes on at this depth: one before the roulette
/// starts, then the largest albedo channel, but at least `MIN_SURVIVAL`.
pub open spec fn survival(m: Material, depth: int) -> int {
    if depth < ROULETTE_DEPTH {
        ONE as int
    } else {
        max_spec(
            max_spec(max_spec(m.albedo.x as int, m.albedo.y as int), m.albedo.z as int),
            MIN_SURVIVAL as int,
        )
    }
}

/// A direction drawn in the cube `[-1, 1)^3`, scaled to unit length.
pub open spec fn random_direction(key: u64, depth: int) -> Vec3 {
    normalize_spec(
        v3(
            2 * draw_spec(key, depth, 2) - ONE,
            2 * draw_spec(key, depth, 3) - ONE,
            2 * draw_spec(key, depth, 4) - ONE,
        ),
    )
}

/// Next direction of a path: a glossy mirror bounce, blurred by the roughness,
/// with probability equal to the reflectivity; else a diffuse bounce around the normal.
pub open spec fn bounce_dir(m: Material, ray: Ray, h: Hit, key: u64, depth: int) -> Vec3 {
    let r = random_direction(key, depth);
    if draw_spec(key, depth, 1) < m.reflectivity {
        normalize_spec(vadd_spec(reflect_spec(ray.dir, h.normal), vscale_spec(r, m.roughness as int)))
    } else {
        normalize_spec(vadd_spec(h.normal, r))
    }
}

pub open spec fn path_spec(sv: SceneView, ray: Ray, depth: int, key: u64) -> Vec3
    decreases MAX_PATH_DEPTH - depth,
{
    match nearest_hit_spec(sv.prims, ray) {
        None => background(),
        Some(h) => {
            let m = material_at(sv, h);
            let p = survival(m, depth);
            if depth >= MAX_PATH_DEPTH || draw_spec(key, depth, 0) >= p {
                m.emission
            } else {
                let next = Ray { origin: lifted(h), dir: bounce_dir(m, ray, h, key, depth), t_max: LIMIT };
                let c = vmul_spec(m.albedo, path_spec(sv, next, depth + 1, key));
                let weighted = if p < ONE {
                    vscale_spec(c, div_spec(ONE as int, p))
                } else {
                    c
                };
                vadd_spec(m.emission, weighted)
            }
        },
    }
}

/// The colour of one ray under a mode; `key` seeds the draws of `Pathtracing`.
pub open spec fn shade_spec(sv: SceneView, mode: RenderMode, ray: Ray, key: u64) -> Vec3 {
    match mode {
        RenderMode::Normals => normals_spec(sv, ray),
        RenderMode::Raycast => raycast_spec(sv, ray),
        RenderMode::Raytrace => trace_spec(sv, ray, 0),
        RenderMode::Pathtracing => path_spec(sv, ray, 0, key),
    }
}

fn lifted_exec(h: &Hit) -> (r: Vec3)
    ensures
        r == lifted(*h),
{
    h.point.add(h.normal.scale(SURFACE_OFFSET))
}

fn shadow_ray_exec(h: &Hit, l: &Light) -> (r: Ray)
    ensures
        r == shadow_ray(*h, *l),
{
    let o = lifted_exec(h);
    match l.kind {
        LightKind::Point => {
            let d = l.vector.sub(o);
            Ray { origin: o, dir: d.normalize(), t_max: d.length() }
        },
        LightKind::Directional => Ray { origin: o, dir: l.vector, t_max: LIMIT },
    }
}

fn light_contribution_exec(prims: &Vec<Primitive>, albedo: Vec3, h: &Hit, l: &Light) -> (r: Vec3)
    ensures
        r == light_contribution(prims@, albedo, *h, *l),
{
    let ray = shadow_ray_exec(h, l);
    let cos = h.normal.dot(ray.dir);
    if cos <= 0 || occluded(prims, &ray) {
        Vec3::new(0, 0, 0)
    } else {
        let fall = match l.kind {
            LightKind::Point => fmax(ONE, fmul(ray.t_max, ray.t_max)),
            LightKind::Directional => ONE,
        };
        albedo.mul(l.color).scale(fdiv(fmul(l.intensity, cos), fall))
    }
}

/// Ambient plus direct light at a hit.
fn local_color_exec(scene: &Scene, h: &Hit) -> (r: Vec3)
    requires
        h.material < scene@.materials.len(),
    ensures
        r == local_color(scene@, *h),
{
    let albedo = scene.materials[h.material].albedo;
    let mut sum = Vec3::new(0, 0, 0);
    let mut i: usize = 0;
    while i < scene.lights.len()
        invariant
            i <= scene@.lights.len(),
            albedo == material_at(scene@, *h).albedo,
            sum == direct_upto(scene@, albedo, *h, i as nat),
        decreases scene@.lights.len() - i,
    {
        sum = sum.add(light_contribution_exec(&scene.prims, albedo, h, &scene.lights[i]));
        i += 1;
    }
    albedo.scale(AMBIENT).add(sum)
}

fn hit_of(scene: &Scene, ray: &Ray) -> (r: Option<Hit>)
    requires
        scene@.wf(),
    ensures
        r == nearest_hit_spec(scene@.prims, *ray),
        match r {
            Some(h) => h.material < scene@.materials.len(),
            None => true,
        },
{
    let r = nearest_hit(&scene.prims, ray);
    proof {
        if let Some(h) = r {
            assert(crate::scene::primitive_wf(scene@.prims[h.index as int]));
        }
    }
    r
}

pub fn shade_normals(scene: &Scene, ray: &Ray) -> (r: Vec3)
    requires
        scene@.wf(),
    ensures
        r == normals_spec(scene@, *ray),
{
    match hit_of(scene, ray) {
        None => background_exec(),
        Some(h) => Vec3::new(
            fmul(fadd(h.normal.x, ONE), ONE / 2),
            fmul(fadd(h.normal.y, ONE), ONE / 2),
            fmul(fadd(h.normal.z, ONE), ONE / 2),
        ),
    }
}

pub fn shade_raycast(scene: &Scene, ray: &Ray) -> (r: Vec3)
    requires
        scene@.wf(),
    ensures
        r == raycast_spec(scene@, *ray),
{
    match hit_of(scene, ray) {
        None => background_exec(),
        Some(h) => local_color_exec(scene, &h),
    }
}

fn reflect_exec(d: Vec3, n: Vec3) -> (r: Vec3)
    ensures
        r == reflect_spec(d, n),
{
    let k = d.dot(n);
    d.sub(n.scale(fadd(k, k))).normalize()
}

pub fn shade_raytrace(scene: &Scene, ray: &Ray, depth: u32) -> (r: Vec3)
    requires
        scene@.wf(),
        depth <= MAX_DEPTH,
    ensures
        r == trace_spec(scene@, *ray, depth as int),
    decreases MAX_DEPTH - depth,
{
    match hit_of(scene, ray) {
        None => background_exec(),
        Some(h) => {
            let local = local_color_exec(scene, &h);
            let k = scene.materials[h.material].reflectivity;
            if k > 0 && depth < MAX_DEPTH {
                let next = Ray { origin: lifted_exec(&h), dir: reflect_exec(ray.dir, h.normal), t_max: LIMIT };
                let rc = shade_raytrace(scene, &next, depth + 1);
                local.scale(fsub(ONE, k)).add(rc.scale(k))
            } else {
                local
            }
        },
    }
}

fn survival_exec(m: &Material, depth: u32) -> (r: i64)
    ensures
        r == survival(*m, depth as int),
{
    if depth < ROULETTE_DEPTH {
        ONE
    } else {
        fmax(fmax(fmax(m.albedo.x, m.albedo.y), m.albedo.z), MIN_SURVIVAL)
    }
}

fn bounce_dir_exec(m: &Material, ray: &Ray, h: &Hit, key: u64, depth: u32) -> (r: Vec3)
    requires
        depth < 64,
    ensures
        r == bounce_dir(*m, *ray, *h, key, depth as int),
{
    let rx = draw(key, depth, 2);
    let ry = draw(key, depth, 3);
    let rz = draw(key, depth, 4);
    let rnd = Vec3::new(2 * rx - ONE, 2 * ry - ONE, 2 * rz - ONE).normalize();
    if draw(key, depth, 1) < m.reflectivity {
        reflect_exec(ray.dir, h.normal).add(rnd.scale(m.roughness)).normalize()
    } else {
        h.normal.add(rnd).normalize()
    }
}

pub fn shade_path(scene: &Scene, ray: &Ray, depth: u32, key: u64) -> (r: Vec3)
    requires
        scene@.wf(),
        depth <= MAX_PATH_DEPTH,
    ensures
        r == path_spec(scene@, *ray, depth as int, key),
    decreases MAX_PATH_DEPTH - depth,
{
    match hit_of(scene, ray) {
        None => background_exec(),
        Some(h) => {
            let m = scene.materials[h.material];
            let p = survival_exec(&m, depth);
            if depth >= MAX_PATH_DEPTH || draw(key, depth, 0) >= p {
                m.emission
            } else {
                let next = Ray { origin: lifted_exec(&h), dir: bounce_dir_exec(&m, ray, &h, key, depth), t_max: LIMIT };
                let c = m.albedo.mul(shade_path(scene, &next, depth + 1, key));
                let weighted = if p < ONE {
                    c.scale(fdiv(ONE, p))
                } else {
                    c
                };
                m.emission.add(weighted)
            }
        },
    }
}

/// The colour of one ray under the given mode.
pub fn shade(scene: &Scene, mode: RenderMode, ray: &Ray, key: u64) -> (r: Vec3)
    requires
        scene@.wf(),
    ensures
        r == shade_spec(scene@, mode, *ray, key),
{
    match mode {
        RenderMode::Normals => shade_normals(scene, ray),
        RenderMode::Raycast => shade_raycast(scene, ray),
        RenderMode::Raytrace => shade_raytrace(scene, ray, 0),
        RenderMode::Pathtracing => shade_path(scene, ray, 0, key),
    }
}

/// Under `Normals` the colour of a ray depends on the normal at its nearest
/// hit alone: two scenes whose nearest hits along a ray share their normal
/// give the ray the same colour, whatever else differs (another primitive's
/// position, the sample key), and each channel is the normal's component
/// mapped from `[-1, 1]` onto `[0, 1]`.
pub proof fn law_normals_color_follows_normal(a: SceneView, b: SceneView, ray: Ray, key_a: u64, key_b: u64)
    requires
        nearest_hit_spec(a.prims, ray) is Some,
        nearest_hit_spec(b.prims, ray) is Some,
        nearest_hit_spec(a.prims, ray)->Some_0.normal == nearest_hit_spec(b.prims, ray)->Some_0.normal,
    ensures
        shade_spec(a, RenderMode::Normals, ray, key_a) == shade_spec(b, RenderMode::Normals, ray, key_b),
        ({
            let n = nearest_hit_spec(a.prims, ray)->Some_0.normal;
            let c = shade_spec(a, RenderMode::Normals, ray, key_a);
            -ONE <= n.x <= ONE && -ONE <= n.y <= ONE && -ONE <= n.z <= ONE ==> c == v3(
                (n.x + ONE) / 2,
                (n.y + ONE) / 2,
                (n.z + ONE) / 2,
            )
        }),
{
    let n = nearest_hit_spec(a.prims, ray)->Some_0.normal;
    if -ONE <= n.x <= ONE && -ONE <= n.y <= ONE && -ONE <= n.z <= ONE {
        lemma_half_remap(n.x as int);
        lemma_half_remap(n.y as int);
        lemma_half_remap(n.z as int);
    }
}

proof fn lemma_half_remap(x: int)
    requires
        -ONE <= x <= ONE,
    ensures
        mul_spec(add_spec(x, ONE as int), ONE / 2) == (x + ONE) / 2,
{
    let v = x + ONE;
    assert(v * 32768 / 65536 == v / 2) by (nonlinear_arith)
        requires
            v >= 0,
    {
        let q = v / 2;
        let r = v % 2;
        assert(v == 2 * q + r);
        assert(v * 32768 == q * 65536 + r * 32768);
    }
}

proof fn lemma_dark_upto(sv: SceneView, albedo: Vec3, h: Hit, n: nat)
    requires
        n <= sv.lights.len(),
        forall|i: int| 0 <= i < n ==> #[trigger] occluded_spec(sv.prims, shadow_ray(h, sv.lights[i])),
    ensures
        direct_upto(sv, albedo, h, n) == v3(0, 0, 0),
    decreases n,
{
    if n > 0 {
        lemma_dark_upto(sv, albedo, h, (n - 1) as nat);
        assert(occluded_spec(sv.prims, shadow_ray(h, sv.lights[n - 1])));
    }
}

/// Under `Raycast` a hit from which every light is hidden by some primitive
/// shows the ambient term alone: no light adds anything.
pub proof fn law_raycast_occluded_is_ambient(sv: SceneView, ray: Ray)
    requires
        nearest_hit_spec(sv.prims, ray) is Some,
        forall|i: int|
            0 <= i < sv.lights.len() ==> #[trigger] occluded_spec(
                sv.prims,
                shadow_ray(nearest_hit_spec(sv.prims, ray)->Some_0, sv.lights[i]),
            ),
    ensures
        raycast_spec(sv, ray) == ambient(
            material_at(sv, nearest_hit_spec(sv.prims, ray)->Some_0).albedo,
        ),
{
    let h = nearest_hit_spec(sv.prims, ray)->Some_0;
    let albedo = material_at(sv, h).albedo;
    lemma_dark_upto(sv, albedo, h, sv.lights.len());
}

/// `Raytrace` recursion is bounded: at the largest depth a ray gets direct
/// light only, exactly as under `Raycast`, and follows no reflection.
pub proof fn law_raytrace_depth_bounded(sv: SceneView, ray: Ray, depth: int)
    requires
        depth >= MAX_DEPTH,
    ensures
        trace_spec(sv, ray, depth) == raycast_spec(sv, ray),
{
}

} // verus!
