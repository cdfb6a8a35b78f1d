use vstd::prelude::*;
use crate::fixed::{div_trunc, mul_spec, is_isqrt, isqrt, lemma_isqrt_unique, ONE};
use crate::geometry::{material_of, Primitive};
use crate::vec3::{cross_spec, length_spec, vsub_spec, v3, Vec3};

verus! {

/// Surface response. Colour channels and weights are fixed-point values in `[0, ONE]`.
#[derive(Clone, Copy, Debug, PartialEq, Eq, Structural)]
pub struct Material {
    pub albedo: Vec3,
    pub reflectivity: i64,
    pub roughness: i64,
    /// Light given off by the surface; zero for a surface that emits nothing.
    pub emission: Vec3,
}

#[derive(Clone, Copy, Debug, PartialEq, Eq, Structural)]
pub enum LightKind {
    /// `vector` is the light's position.
    Point,
    /// `vector` is the unit direction from the scene toward the light.
    Directional,
}

#[derive(Clone, Copy, Debug, PartialEq, Eq, Structural)]
pub struct Light {
    pub kind: LightKind,
    pub vector: Vec3,
    pub color: Vec3,
    pub intensity: i64,
}

/// What the renderer reads of a scene: primitives, their materials, and lights.
pub struct Scene {
    pub prims: Vec<Primitive>,
    pub materials: Vec<Material>,
    pub lights: Vec<Light>,
}

pub struct SceneView {
    pub prims: Seq<Primitive>,
    pub materials: Seq<Material>,
    pub lights: Seq<Light>,
}

impl View for Scene {
    type V = SceneView;

    open spec fn view(&self) -> SceneView {
        SceneView { prims: self.prims@, materials: self.materials@, lights: self.lights@ }
    }
}

#[derive(Clone, Copy, Debug, PartialEq, Eq, Structural)]
pub enum SceneError {
    InvalidSceneIndex,
}

/// Number of scenes in the catalog.
pub const SCENE_COUNT: usize = 10;

pub open spec fn unit_range(v: int) -> bool {
    0 <= v <= ONE
}

pub open spec fn color_wf(c: Vec3) -> bool {
    unit_range(c.x as int) && unit_range(c.y as int) && unit_range(c.z as int)
}

pub open spec fn material_wf(m: Material) -> bool {
    color_wf(m.albedo) && unit_range(m.reflectivity as int) && unit_range(m.roughness as int)
        && m.emission.x >= 0 && m.emission.y >= 0 && m.emission.z >= 0
}

pub open spec fn primitive_wf(p: Primitive) -> bool {
    match p {
        Primitive::Sphere { radius, .. } => radius > 0,
        Primitive::Plane { normal, .. } => length_spec(normal) == ONE,
        Primitive::Triangle { v0, v1, v2, .. } => cross_spec(vsub_spec(v1, v0), vsub_spec(v2, v0))
            != v3(0, 0, 0),
    }
}

pub open spec fn light_wf(l: Light) -> bool {
    l.intensity >= 0 && color_wf(l.color)
}

impl SceneView {
    /// Every primitive is non-degenerate and names a material of the scene;
    /// every material and light is within its declared range.
    pub open spec fn wf(&self) -> bool {
        &&& forall|i: int|
            0 <= i < self.prims.len() ==> #[trigger] primitive_wf(self.prims[i])
                && material_of(self.prims[i]) < self.materials.len()
        &&& forall|i: int| 0 <= i < self.materials.len() ==> #[trigger] material_wf(self.materials[i])
        &&& forall|i: int| 0 <= i < self.lights.len() ==> #[trigger] light_wf(self.lights[i])
    }
}

/// A point given in sixteenths of a unit.
pub open spec fn at(x: int, y: int, z: int) -> Vec3 {
    v3(x * (ONE / 16), y * (ONE / 16), z * (ONE / 16))
}

fn at_exec(x: i64, y: i64, z: i64) -> (r: Vec3)
    requires
        -1000000 <= x <= 1000000,
        -1000000 <= y <= 1000000,
        -1000000 <= z <= 1000000,
    ensures
        r == at(x as int, y as int, z as int),
{
    Vec3::new(x * (ONE / 16), y * (ONE / 16), z * (ONE / 16))
}

/// The axis directions used as plane normals have length `ONE`.
proof fn lemma_axis_unit_length()
    ensures
        length_spec(at(0, 0, 16)) == ONE,
        length_spec(at(0, 16, 0)) == ONE,
{
    assert(is_isqrt(ONE * ONE, ONE as int));
    lemma_isqrt_unique(ONE * ONE, ONE as int, isqrt(ONE * ONE));
}

pub open spec fn scene_0() -> SceneView {
    SceneView {
        prims: seq![
            Primitive::Plane { point: at(0, 0, -80), normal: at(0, 0, 16), material: 0 },
        ],
        materials: seq![
            Material { albedo: at(14, 14, 14), reflectivity: (0 * (ONE / 16)) as i64, roughness: (0 * (ONE / 16)) as i64, emission: at(0, 0, 0) },
        ],
        lights: seq![
            Light { kind: LightKind::Point, vector: at(0, 32, 0), color: at(16, 16, 16), intensity: (320 * (ONE / 16)) as i64 },
        ],
    }
}

fn build_scene_0() -> (s: Scene)
    ensures
        s@ == scene_0(),
        s@.wf(),
{
    let prims = vec![
        Primitive::Plane { point: at_exec(0, 0, -80), normal: at_exec(0, 0, 16), material: 0 },
    ];
    let materials = vec![
        Material { albedo: at_exec(14, 14, 14), reflectivity: 0 * (ONE / 16), roughness: 0 * (ONE / 16), emission: at_exec(0, 0, 0) },
    ];
    let lights = vec![
        Light { kind: LightKind::Point, vector: at_exec(0, 32, 0), color: at_exec(16, 16, 16), intensity: 320 * (ONE / 16) },
    ];
    let s = Scene { prims, materials, lights };
    assert(s@.prims =~= scene_0().prims);
    assert(s@.materials =~= scene_0().materials);
    assert(s@.lights =~= scene_0().lights);
    proof {
        lemma_axis_unit_length();
    }
    s
}

pub open spec fn scene_1() -> SceneView {
    SceneView {
        prims: seq![
            Primitive::Plane { point: at(0, -16, 0), normal: at(0, 16, 0), material: 0 },
            Primitive::Sphere { center: at(0, 0, -64), radius: (16 * (ONE / 16)) as i64, material: 1 },
        ],
        materials: seq![
            Material { albedo: at(12, 12, 12), reflectivity: (0 * (ONE / 16)) as i64, roughness: (0 * (ONE / 16)) as i64, emission: at(0, 0, 0) },
            Material { albedo: at(14, 3, 3), reflectivity: (0 * (ONE / 16)) as i64, roughness: (0 * (ONE / 16)) as i64, emission: at(0, 0, 0) },
        ],
        lights: seq![
            Light { kind: LightKind::Point, vector: at(32, 64, 0), color: at(16, 16, 16), intensity: (320 * (ONE / 16)) as i64 },
        ],
    }
}

fn build_scene_1() -> (s: Scene)
    ensures
        s@ == scene_1(),
        s@.wf(),
{
    let prims = vec![
        Primitive::Plane { point: at_exec(0, -16, 0), normal: at_exec(0, 16, 0), material: 0 },
        Primitive::Sphere { center: at_exec(0, 0, -64), radius: 16 * (ONE / 16), material: 1 },
    ];
    let materials = vec![
        Material { albedo: at_exec(12, 12, 12), reflectivity: 0 * (ONE / 16), roughness: 0 * (ONE / 16), emission: at_exec(0, 0, 0) },
        Material { albedo: at_exec(14, 3, 3), reflectivity: 0 * (ONE / 16), roughness: 0 * (ONE / 16), emission: at_exec(0, 0, 0) },
    ];
    let lights = vec![
        Light { kind: LightKind::Point, vector: at_exec(32, 64, 0), color: at_exec(16, 16, 16), intensity: 320 * (ONE / 16) },
    ];
    let s = Scene { prims, materials, lights };
    assert(s@.prims =~= scene_1().prims);
    assert(s@.materials =~= scene_1().materials);
    assert(s@.lights =~= scene_1().lights);
    proof {
        lemma_axis_unit_length();
    }
    s
}

pub open spec fn scene_2() -> SceneView {
    SceneView {
        prims: seq![
            Primitive::Plane { point: at(0, -16, 0), normal: at(0, 16, 0), material: 0 },
            Primitive::Sphere { center: at(-36, 0, -72), radius: (16 * (ONE / 16)) as i64, material: 1 },
            Primitive::Sphere { center: at(0, 0, -64), radius: (16 * (ONE / 16)) as i64, material: 2 },
            Primitive::Sphere { center: at(36, 0, -72), radius: (16 * (ONE / 16)) as i64, material: 3 },
        ],
        materials: seq![
            Material { albedo: at(12, 12, 12), reflectivity: (0 * (ONE / 16)) as i64, roughness: (0 * (ONE / 16)) as i64, emission: at(0, 0, 0) },
            Material { albedo: at(14, 3, 3), reflectivity: (0 * (ONE / 16)) as i64, roughness: (0 * (ONE / 16)) as i64, emission: at(0, 0, 0) },
            Material { albedo: at(14, 14, 14), reflectivity: (16 * (ONE / 16)) as i64, roughness: (0 * (ONE / 16)) as i64, emission: at(0, 0, 0) },
            Material { albedo: at(3, 4, 14), reflectivity: (0 * (ONE / 16)) as i64, roughness: (0 * (ONE / 16)) as i64, emission: at(0, 0, 0) },
        ],
        lights: seq![
            Light { kind: LightKind::Point, vector: at(-32, 64, 0), color: at(16, 16, 16), intensity: (320 * (ONE / 16)) as i64 },
            Light { kind: LightKind::Point, vector: at(48, 32, -16), color: at(16, 12, 8), intensity: (160 * (ONE / 16)) as i64 },
        ],
    }
}

fn build_scene_2() -> (s: Scene)
    ensures
        s@ == scene_2(),
        s@.wf(),
{
    let prims = vec![
        Primitive::Plane { point: at_exec(0, -16, 0), normal: at_exec(0, 16, 0), material: 0 },
        Primitive::Sphere { center: at_exec(-36, 0, -72), radius: 16 * (ONE / 16), material: 1 },
        Primitive::Sphere { center: at_exec(0, 0, -64), radius: 16 * (ONE / 16), material: 2 },
        Primitive::Sphere { center: at_exec(36, 0, -72), radius: 16 * (ONE / 16), material: 3 },
    ];
    let materials = vec![
        Material { albedo: at_exec(12, 12, 12), reflectivity: 0 * (ONE / 16), roughness: 0 * (ONE / 16), emission: at_exec(0, 0, 0) },
        Material { albedo: at_exec(14, 3, 3), reflectivity: 0 * (ONE / 16), roughness: 0 * (ONE / 16), emission: at_exec(0, 0, 0) },
        Material { albedo: at_exec(14, 14, 14), reflectivity: 16 * (ONE / 16), roughness: 0 * (ONE / 16), emission: at_exec(0, 0, 0) },
        Material { albedo: at_exec(3, 4, 14), reflectivity: 0 * (ONE / 16), roughness: 0 * (ONE / 16), emission: at_exec(0, 0, 0) },
    ];
    let lights = vec![
        Light { kind: LightKind::Point, vector: at_exec(-32, 64, 0), color: at_exec(16, 16, 16), intensity: 320 * (ONE / 16) },
        Light { kind: LightKind::Point, vector: at_exec(48, 32, -16), color: at_exec(16, 12, 8), intensity: 160 * (ONE / 16) },
    ];
    let s = Scene { prims, materials, lights };
    assert(s@.prims =~= scene_2().prims);
    assert(s@.materials =~= scene_2().materials);
    assert(s@.lights =~= scene_2().lights);
    proof {
        lemma_axis_unit_length();
    }
    s
}

pub open spec fn scene_3() -> SceneView {
    SceneView {
        prims: seq![
            Primitive::Plane { point: at(0, -16, 0), normal: at(0, 16, 0), material: 0 },
            Primitive::Triangle { v0: at(-32, -16, -96), v1: at(32, -16, -96), v2: at(0, 40, -96), material: 1 },
            Primitive::Sphere { center: at(16, -4, -56), radius: (12 * (ONE / 16)) as i64, material: 2 },
        ],
        materials: seq![
            Material { albedo: at(12, 12, 12), reflectivity: (0 * (ONE / 16)) as i64, roughness: (0 * (ONE / 16)) as i64, emission: at(0, 0, 0) },
            Material { albedo: at(3, 13, 4), reflectivity: (0 * (ONE / 16)) as i64, roughness: (0 * (ONE / 16)) as i64, emission: at(0, 0, 0) },
            Material { albedo: at(14, 14, 14), reflectivity: (0 * (ONE / 16)) as i64, roughness: (0 * (ONE / 16)) as i64, emission: at(0, 0, 0) },
        ],
        lights: seq![
            Light { kind: LightKind::Directional, vector: at(0, 16, 0), color: at(16, 16, 16), intensity: (16 * (ONE / 16)) as i64 },
        ],
    }
}

fn build_scene_3() -> (s: Scene)
    ensures
        s@ == scene_3(),
        s@.wf(),
{
    let prims = vec![
        Primitive::Plane { point: at_exec(0, -16, 0), normal: at_exec(0, 16, 0), material: 0 },
        Primitive::Triangle { v0: at_exec(-32, -16, -96), v1: at_exec(32, -16, -96), v2: at_exec(0, 40, -96), material: 1 },
        Primitive::Sphere { center: at_exec(16, -4, -56), radius: 12 * (ONE / 16), material: 2 },
    ];
    let materials = vec![
        Material { albedo: at_exec(12, 12, 12), reflectivity: 0 * (ONE / 16), roughness: 0 * (ONE / 16), emission: at_exec(0, 0, 0) },
        Material { albedo: at_exec(3, 13, 4), reflectivity: 0 * (ONE / 16), roughness: 0 * (ONE / 16), emission: at_exec(0, 0, 0) },
        Material { albedo: at_exec(14, 14, 14), reflectivity: 0 * (ONE / 16), roughness: 0 * (ONE / 16), emission: at_exec(0, 0, 0) },
    ];
    let lights = vec![
        Light { kind: LightKind::Directional, vector: at_exec(0, 16, 0), color: at_exec(16, 16, 16), intensity: 16 * (ONE / 16) },
    ];
    let s = Scene { prims, materials, lights };
    assert(s@.prims =~= scene_3().prims);
    assert(s@.materials =~= scene_3().materials);
    assert(s@.lights =~= scene_3().lights);
    proof {
        lemma_axis_unit_length();
        assert(div_trunc(262144int * 229376int, ONE as int) == 917504) by (nonlinear_arith);
        assert(mul_spec(262144, 229376) - mul_spec(0, 131072) == 917504);
        assert(cross_spec(vsub_spec(at(32, -16, -96), at(-32, -16, -96)), vsub_spec(at(0, 40, -96), at(-32, -16, -96))).z == 917504);
    }
    s
}

pub open spec fn scene_4() -> SceneView {
    SceneView {
        prims: seq![
            Primitive::Sphere { center: at(0, 0, 0), radius: (800 * (ONE / 16)) as i64, material: 0 },
        ],
        materials: seq![
            Material { albedo: at(12, 12, 12), reflectivity: (0 * (ONE / 16)) as i64, roughness: (0 * (ONE / 16)) as i64, emission: at(0, 0, 0) },
        ],
        lights: seq![
            Light { kind: LightKind::Point, vector: at(0, 1600, 0), color: at(16, 16, 16), intensity: (320 * (ONE / 16)) as i64 },
        ],
    }
}

fn build_scene_4() -> (s: Scene)
    ensures
        s@ == scene_4(),
        s@.wf(),
{
    let prims = vec![
        Primitive::Sphere { center: at_exec(0, 0, 0), radius: 800 * (ONE / 16), material: 0 },
    ];
    let materials = vec![
        Material { albedo: at_exec(12, 12, 12), reflectivity: 0 * (ONE / 16), roughness: 0 * (ONE / 16), emission: at_exec(0, 0, 0) },
    ];
    let lights = vec![
        Light { kind: LightKind::Point, vector: at_exec(0, 1600, 0), color: at_exec(16, 16, 16), intensity: 320 * (ONE / 16) },
    ];
    let s = Scene { prims, materials, lights };
    assert(s@.prims =~= scene_4().prims);
    assert(s@.materials =~= scene_4().materials);
    assert(s@.lights =~= scene_4().lights);
    proof {
        lemma_axis_unit_length();
    }
    s
}

pub open spec fn scene_5() -> SceneView {
    SceneView {
        prims: seq![
            Primitive::Plane { point: at(0, -16, 0), normal: at(0, 16, 0), material: 0 },
            Primitive::Sphere { center: at(0, 80, -64), radius: (32 * (ONE / 16)) as i64, material: 1 },
            Primitive::Sphere { center: at(0, 0, -64), radius: (16 * (ONE / 16)) as i64, material: 2 },
        ],
        materials: seq![
            Material { albedo: at(12, 12, 12), reflectivity: (0 * (ONE / 16)) as i64, roughness: (0 * (ONE / 16)) as i64, emission: at(0, 0, 0) },
            Material { albedo: at(16, 16, 16), reflectivity: (0 * (ONE / 16)) as i64, roughness: (0 * (ONE / 16)) as i64, emission: at(64, 64, 64) },
            Material { albedo: at(14, 3, 3), reflectivity: (0 * (ONE / 16)) as i64, roughness: (0 * (ONE / 16)) as i64, emission: at(0, 0, 0) },
        ],
        lights: seq![
            Light { kind: LightKind::Point, vector: at(0, 32, -32), color: at(16, 16, 16), intensity: (64 * (ONE / 16)) as i64 },
        ],
    }
}

fn build_scene_5() -> (s: Scene)
    ensures
        s@ == scene_5(),
        s@.wf(),
{
    let prims = vec![
        Primitive::Plane { point: at_exec(0, -16, 0), normal: at_exec(0, 16, 0), material: 0 },
        Primitive::Sphere { center: at_exec(0, 80, -64), radius: 32 * (ONE / 16), material: 1 },
        Primitive::Sphere { center: at_exec(0, 0, -64), radius: 16 * (ONE / 16), material: 2 },
    ];
    let materials = vec![
        Material { albedo: at_exec(12, 12, 12), reflectivity: 0 * (ONE / 16), roughness: 0 * (ONE / 16), emission: at_exec(0, 0, 0) },
        Material { albedo: at_exec(16, 16, 16), reflectivity: 0 * (ONE / 16), roughness: 0 * (ONE / 16), emission: at_exec(64, 64, 64) },
        Material { albedo: at_exec(14, 3, 3), reflectivity: 0 * (ONE / 16), roughness: 0 * (ONE / 16), emission: at_exec(0, 0, 0) },
    ];
    let lights = vec![
        Light { kind: LightKind::Point, vector: at_exec(0, 32, -32), color: at_exec(16, 16, 16), intensity: 64 * (ONE / 16) },
    ];
    let s = Scene { prims, materials, lights };
    assert(s@.prims =~= scene_5().prims);
    assert(s@.materials =~= scene_5().materials);
    assert(s@.lights =~= scene_5().lights);
    proof {
        lemma_axis_unit_length();
    }
    s
}

pub open spec fn scene_6() -> SceneView {
    SceneView {
        prims: seq![
            Primitive::Sphere { center: at(0, 0, 0), radius: (640 * (ONE / 16)) as i64, material: 0 },
            Primitive::Sphere { center: at(0, 0, -64), radius: (16 * (ONE / 16)) as i64, material: 0 },
            Primitive::Sphere { center: at(24, 8, -40), radius: (8 * (ONE / 16)) as i64, material: 0 },
        ],
        materials: seq![
            Material { albedo: at(14, 14, 14), reflectivity: (16 * (ONE / 16)) as i64, roughness: (0 * (ONE / 16)) as i64, emission: at(0, 0, 0) },
        ],
        lights: seq![
            Light { kind: LightKind::Point, vector: at(0, 32, -32), color: at(16, 16, 16), intensity: (320 * (ONE / 16)) as i64 },
        ],
    }
}

fn build_scene_6() -> (s: Scene)
    ensures
        s@ == scene_6(),
        s@.wf(),
{
    let prims = vec![
        Primitive::Sphere { center: at_exec(0, 0, 0), radius: 640 * (ONE / 16), material: 0 },
        Primitive::Sphere { center: at_exec(0, 0, -64), radius: 16 * (ONE / 16), material: 0 },
        Primitive::Sphere { center: at_exec(24, 8, -40), radius: 8 * (ONE / 16), material: 0 },
    ];
    let materials = vec![
        Material { albedo: at_exec(14, 14, 14), reflectivity: 16 * (ONE / 16), roughness: 0 * (ONE / 16), emission: at_exec(0, 0, 0) },
    ];
    let lights = vec![
        Light { kind: LightKind::Point, vector: at_exec(0, 32, -32), color: at_exec(16, 16, 16), intensity: 320 * (ONE / 16) },
    ];
    let s = Scene { prims, materials, lights };
    assert(s@.prims =~= scene_6().prims);
    assert(s@.materials =~= scene_6().materials);
    assert(s@.lights =~= scene_6().lights);
    proof {
        lemma_axis_unit_length();
    }
    s
}

pub open spec fn scene_7() -> SceneView {
    SceneView {
        prims: seq![
            Primitive::Plane { point: at(0, -16, 0), normal: at(0, 16, 0), material: 0 },
            Primitive::Sphere { center: at(-20, 0, -64), radius: (16 * (ONE / 16)) as i64, material: 1 },
            Primitive::Sphere { center: at(20, 0, -64), radius: (16 * (ONE / 16)) as i64, material: 2 },
        ],
        materials: seq![
            Material { albedo: at(12, 12, 12), reflectivity: (8 * (ONE / 16)) as i64, roughness: (0 * (ONE / 16)) as i64, emission: at(0, 0, 0) },
            Material { albedo: at(14, 3, 3), reflectivity: (0 * (ONE / 16)) as i64, roughness: (0 * (ONE / 16)) as i64, emission: at(0, 0, 0) },
            Material { albedo: at(3, 4, 14), reflectivity: (0 * (ONE / 16)) as i64, roughness: (0 * (ONE / 16)) as i64, emission: at(0, 0, 0) },
        ],
        lights: seq![
            Light { kind: LightKind::Point, vector: at(0, 64, 0), color: at(16, 16, 16), intensity: (320 * (ONE / 16)) as i64 },
        ],
    }
}

fn build_scene_7() -> (s: Scene)
    ensures
        s@ == scene_7(),
        s@.wf(),
{
    let prims = vec![
        Primitive::Plane { point: at_exec(0, -16, 0), normal: at_exec(0, 16, 0), material: 0 },
        Primitive::Sphere { center: at_exec(-20, 0, -64), radius: 16 * (ONE / 16), material: 1 },
        Primitive::Sphere { center: at_exec(20, 0, -64), radius: 16 * (ONE / 16), material: 2 },
    ];
    let materials = vec![
        Material { albedo: at_exec(12, 12, 12), reflectivity: 8 * (ONE / 16), roughness: 0 * (ONE / 16), emission: at_exec(0, 0, 0) },
        Material { albedo: at_exec(14, 3, 3), reflectivity: 0 * (ONE / 16), roughness: 0 * (ONE / 16), emission: at_exec(0, 0, 0) },
        Material { albedo: at_exec(3, 4, 14), reflectivity: 0 * (ONE / 16), roughness: 0 * (ONE / 16), emission: at_exec(0, 0, 0) },
    ];
    let lights = vec![
        Light { kind: LightKind::Point, vector: at_exec(0, 64, 0), color: at_exec(16, 16, 16), intensity: 320 * (ONE / 16) },
    ];
    let s = Scene { prims, materials, lights };
    assert(s@.prims =~= scene_7().prims);
    assert(s@.materials =~= scene_7().materials);
    assert(s@.lights =~= scene_7().lights);
    proof {
        lemma_axis_unit_length();
    }
    s
}

pub open spec fn scene_8() -> SceneView {
    SceneView {
        prims: seq![
            Primitive::Triangle { v0: at(-48, -16, -112), v1: at(48, -16, -112), v2: at(48, 48, -112), material: 0 },
            Primitive::Triangle { v0: at(-48, -16, -112), v1: at(48, 48, -112), v2: at(-48, 48, -112), material: 0 },
            Primitive::Sphere { center: at(0, 0, -72), radius: (16 * (ONE / 16)) as i64, material: 1 },
            Primitive::Plane { point: at(0, -16, 0), normal: at(0, 16, 0), material: 2 },
        ],
        materials: seq![
            Material { albedo: at(14, 14, 14), reflectivity: (0 * (ONE / 16)) as i64, roughness: (0 * (ONE / 16)) as i64, emission: at(0, 0, 0) },
            Material { albedo: at(13, 10, 4), reflectivity: (10 * (ONE / 16)) as i64, roughness: (6 * (ONE / 16)) as i64, emission: at(0, 0, 0) },
            Material { albedo: at(12, 12, 12), reflectivity: (0 * (ONE / 16)) as i64, roughness: (0 * (ONE / 16)) as i64, emission: at(0, 0, 0) },
        ],
        lights: seq![
            Light { kind: LightKind::Point, vector: at(-40, 40, -16), color: at(16, 16, 16), intensity: (320 * (ONE / 16)) as i64 },
            Light { kind: LightKind::Point, vector: at(40, 40, -16), color: at(8, 8, 16), intensity: (160 * (ONE / 16)) as i64 },
        ],
    }
}

fn build_scene_8() -> (s: Scene)
    ensures
        s@ == scene_8(),
        s@.wf(),
{
    let prims = vec![
        Primitive::Triangle { v0: at_exec(-48, -16, -112), v1: at_exec(48, -16, -112), v2: at_exec(48, 48, -112), material: 0 },
        Primitive::Triangle { v0: at_exec(-48, -16, -112), v1: at_exec(48, 48, -112), v2: at_exec(-48, 48, -112), material: 0 },
        Primitive::Sphere { center: at_exec(0, 0, -72), radius: 16 * (ONE / 16), material: 1 },
        Primitive::Plane { point: at_exec(0, -16, 0), normal: at_exec(0, 16, 0), material: 2 },
    ];
    let materials = vec![
        Material { albedo: at_exec(14, 14, 14), reflectivity: 0 * (ONE / 16), roughness: 0 * (ONE / 16), emission: at_exec(0, 0, 0) },
        Material { albedo: at_exec(13, 10, 4), reflectivity: 10 * (ONE / 16), roughness: 6 * (ONE / 16), emission: at_exec(0, 0, 0) },
        Material { albedo: at_exec(12, 12, 12), reflectivity: 0 * (ONE / 16), roughness: 0 * (ONE / 16), emission: at_exec(0, 0, 0) },
    ];
    let lights = vec![
        Light { kind: LightKind::Point, vector: at_exec(-40, 40, -16), color: at_exec(16, 16, 16), intensity: 320 * (ONE / 16) },
        Light { kind: LightKind::Point, vector: at_exec(40, 40, -16), color: at_exec(8, 8, 16), intensity: 160 * (ONE / 16) },
    ];
    let s = Scene { prims, materials, lights };
    assert(s@.prims =~= scene_8().prims);
    assert(s@.materials =~= scene_8().materials);
    assert(s@.lights =~= scene_8().lights);
    proof {
        lemma_axis_unit_length();
        assert(div_trunc(393216int * 262144int, ONE as int) == 1572864) by (nonlinear_arith);
        assert(mul_spec(393216, 262144) - mul_spec(0, 393216) == 1572864);
        assert(cross_spec(vsub_spec(at(48, -16, -112), at(-48, -16, -112)), vsub_spec(at(48, 48, -112), at(-48, -16, -112))).z == 1572864);
        assert(div_trunc(393216int * 262144int, ONE as int) == 1572864) by (nonlinear_arith);
        assert(mul_spec(393216, 262144) - mul_spec(262144, 0) == 1572864);
        assert(cross_spec(vsub_spec(at(48, 48, -112), at(-48, -16, -112)), vsub_spec(at(-48, 48, -112), at(-48, -16, -112))).z == 1572864);
    }
    s
}

pub open spec fn scene_9() -> SceneView {
    SceneView {
        prims: seq![
            Primitive::Plane { point: at(0, -16, 0), normal: at(0, 16, 0), material: 0 },
            Primitive::Sphere { center: at(-28, -4, -60), radius: (12 * (ONE / 16)) as i64, material: 1 },
            Primitive::Sphere { center: at(0, 4, -80), radius: (20 * (ONE / 16)) as i64, material: 2 },
            Primitive::Sphere { center: at(28, -4, -60), radius: (12 * (ONE / 16)) as i64, material: 3 },
        ],
        materials: seq![
            Material { albedo: at(12, 12, 12), reflectivity: (0 * (ONE / 16)) as i64, roughness: (0 * (ONE / 16)) as i64, emission: at(0, 0, 0) },
            Material { albedo: at(13, 10, 4), reflectivity: (10 * (ONE / 16)) as i64, roughness: (6 * (ONE / 16)) as i64, emission: at(0, 0, 0) },
            Material { albedo: at(14, 14, 14), reflectivity: (16 * (ONE / 16)) as i64, roughness: (0 * (ONE / 16)) as i64, emission: at(0, 0, 0) },
            Material { albedo: at(3, 13, 4), reflectivity: (0 * (ONE / 16)) as i64, roughness: (0 * (ONE / 16)) as i64, emission: at(0, 0, 0) },
        ],
        lights: seq![
            Light { kind: LightKind::Directional, vector: at(0, 16, 0), color: at(16, 14, 12), intensity: (12 * (ONE / 16)) as i64 },
            Light { kind: LightKind::Point, vector: at(0, 48, -24), color: at(16, 16, 16), intensity: (160 * (ONE / 16)) as i64 },
        ],
    }
}

fn build_scene_9() -> (s: Scene)
    ensures
        s@ == scene_9(),
        s@.wf(),
{
    let prims = vec![
        Primitive::Plane { point: at_exec(0, -16, 0), normal: at_exec(0, 16, 0), material: 0 },
        Primitive::Sphere { center: at_exec(-28, -4, -60), radius: 12 * (ONE / 16), material: 1 },
        Primitive::Sphere { center: at_exec(0, 4, -80), radius: 20 * (ONE / 16), material: 2 },
        Primitive::Sphere { center: at_exec(28, -4, -60), radius: 12 * (ONE / 16), material: 3 },
    ];
    let materials = vec![
        Material { albedo: at_exec(12, 12, 12), reflectivity: 0 * (ONE / 16), roughness: 0 * (ONE / 16), emission: at_exec(0, 0, 0) },
        Material { albedo: at_exec(13, 10, 4), reflectivity: 10 * (ONE / 16), roughness: 6 * (ONE / 16), emission: at_exec(0, 0, 0) },
        Material { albedo: at_exec(14, 14, 14), reflectivity: 16 * (ONE / 16), roughness: 0 * (ONE / 16), emission: at_exec(0, 0, 0) },
        Material { albedo: at_exec(3, 13, 4), reflectivity: 0 * (ONE / 16), roughness: 0 * (ONE / 16), emission: at_exec(0, 0, 0) },
    ];
    let lights = vec![
        Light { kind: LightKind::Directional, vector: at_exec(0, 16, 0), color: at_exec(16, 14, 12), intensity: 12 * (ONE / 16) },
        Light { kind: LightKind::Point, vector: at_exec(0, 48, -24), color: at_exec(16, 16, 16), intensity: 160 * (ONE / 16) },
    ];
    let s = Scene { prims, materials, lights };
    assert(s@.prims =~= scene_9().prims);
    assert(s@.materials =~= scene_9().materials);
    assert(s@.lights =~= scene_9().lights);
    proof {
        lemma_axis_unit_length();
    }
    s
}

pub open spec fn catalog(index: int) -> SceneView {
    if index == 0 {
        scene_0()
    } else if index == 1 {
        scene_1()
    } else if index == 2 {
        scene_2()
    } else if index == 3 {
        scene_3()
    } else if index == 4 {
        scene_4()
    } else if index == 5 {
        scene_5()
    } else if index == 6 {
        scene_6()
    } else if index == 7 {
        scene_7()
    } else if index == 8 {
        scene_8()
    } else {
        scene_9()
    }
}

/// The scene at `index` in the catalog.
pub fn resolve(index: usize) -> (r: Result<Scene, SceneError>)
    ensures
        index < SCENE_COUNT <==> r is Ok,
        r is Err ==> r == Err::<Scene, SceneError>(SceneError::InvalidSceneIndex),
        match r {
            Ok(s) => s@ == catalog(index as int) && s@.wf(),
            Err(_) => true,
        },
{
    if index == 0 {
        Ok(build_scene_0())
    } else if index == 1 {
        Ok(build_scene_1())
    } else if index == 2 {
        Ok(build_scene_2())
    } else if index == 3 {
        Ok(build_scene_3())
    } else if index == 4 {
        Ok(build_scene_4())
    } else if index == 5 {
        Ok(build_scene_5())
    } else if index == 6 {
        Ok(build_scene_6())
    } else if index == 7 {
        Ok(build_scene_7())
    } else if index == 8 {
        Ok(build_scene_8())
    } else if index == 9 {
        Ok(build_scene_9())
    } else {
        Err(SceneError::InvalidSceneIndex)
    }
}


} // verus!
