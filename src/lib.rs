//! A small CPU ray tracer over saturating fixed-point arithmetic.
//!
//! Every value that a float would hold in a conventional renderer is an
//! `i64` holding `ONE`ths; every arithmetic step is clamped to `[-LIMIT, LIMIT]`
//! so that the computation is total and its result is pinned by spec functions.
//! A frame is a pure function of its `RenderRequest`: the sample jitter and
//! the path-tracing draws come from WyRand generators keyed by the request's
//! seed, the pixel and the sample.

mod fixed;
mod vec3;
mod geometry;
mod camera;
mod scene;
mod rng;
mod shade;
mod render;
mod viewport;

pub use fixed::{LIMIT, ONE};
pub use viewport::get_max_quadratic_size;
pub use rng::draw;
pub use vec3::Vec3;
pub use geometry::{nearest_hit, Hit, Primitive, Ray};
pub use camera::generate_ray;
pub use scene::{resolve, Light, LightKind, Material, Scene, SceneError, SCENE_COUNT};
pub use shade::{
    shade, shade_normals, shade_path, shade_raycast, shade_raytrace, RenderMode, MAX_DEPTH,
    MAX_PATH_DEPTH,
};
pub use render::{
    render, render_pixel, RenderError, RenderRequest, RequestFault, DEFAULT_SEED, MAX_SAMPLES,
};
