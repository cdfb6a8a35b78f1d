use vstd::prelude::*;
use crate::camera::{generate_ray, generate_ray_spec};
use crate::fixed::{clamp, div_trunc, saturate, wide_div, ONE};
use crate::rng::{draw, draw_spec, WORD_SPAN};
use crate::scene::{catalog, resolve, Scene, SceneView, SCENE_COUNT};
use crate::shade::{shade, shade_spec, RenderMode};
use crate::vec3::{v3, vadd_spec, Vec3};

verus! {

/// Largest number of samples per pixel.
pub const MAX_SAMPLES: u32 = 100;

/// Seed of a request that names none.
pub const DEFAULT_SEED: u64 = 0;

/// Bounce number whose draws jitter the primary ray inside its pixel.
pub const JITTER_STREAM: u32 = 15;

/// Spacing between the keys of consecutive samples.
pub const SAMPLE_STEP: u128 = 0x3E37_79B9_7F4A_7C15;

/// Samples of one pixel are keyed in a block of this size.
pub const SAMPLE_BLOCK: u128 = 128;

/// One frame to render.
#[derive(Clone, Copy, Debug, PartialEq, Eq, Structural)]
pub struct RenderRequest {
    pub width: usize,
    pub height: usize,
    pub sample_count: u32,
    pub render_mode: RenderMode,
    pub scene_index: usize,
    pub seed: u64,
}

/// Which bound of a request was broken.
#[derive(Clone, Copy, Debug, PartialEq, Eq, Structural)]
pub enum RequestFault {
    /// Width or height is zero.
    Dimensions,
    /// The sample count is outside `1..=MAX_SAMPLES`.
    SampleCount,
    /// The scene index is outside the catalog.
    SceneIndex,
}

#[derive(Clone, Copy, Debug, PartialEq, Eq, Structural)]
pub enum RenderError {
    InvalidRequest(RequestFault),
}

impl RenderRequest {
    /// A request with the default seed.
    pub fn new(
        width: usize,
        height: usize,
        sample_count: u32,
        render_mode: RenderMode,
        scene_index: usize,
    ) -> (r: RenderRequest)
        ensures
            r == (RenderRequest { width, height, sample_count, render_mode, scene_index, seed: DEFAULT_SEED }),
    {
        RenderRequest { width, height, sample_count, render_mode, scene_index, seed: DEFAULT_SEED }
    }
}

/// The first bound that the request breaks, checked in the order
/// dimensions, sample count, scene index.
pub open spec fn request_fault(req: RenderRequest) -> Option<RequestFault> {
    if req.width == 0 || req.height == 0 {
        Some(RequestFault::Dimensions)
    } else if req.sample_count < 1 || req.sample_count > MAX_SAMPLES {
        Some(RequestFault::SampleCount)
    } else if req.scene_index >= SCENE_COUNT {
        Some(RequestFault::SceneIndex)
    } else {
        None
    }
}

/// The key of sample `s` of pixel `n` of a frame rendered with `seed`.
pub open spec fn sample_key(seed: u64, n: int, s: int) -> u64 {
    ((seed as int + ((n * SAMPLE_BLOCK + s) % (WORD_SPAN as int)) * SAMPLE_STEP) % (WORD_SPAN as int)) as u64
}

/// The colour of sample `s` of pixel `n`: the shade of a ray through the
/// pixel, jittered by the sample's own draws. Pixels are numbered row by row
/// from the top left.
pub open spec fn sample_color(sv: SceneView, req: RenderRequest, n: int, s: int) -> Vec3 {
    let key = sample_key(req.seed, n, s);
    let x = (n % (req.width as int)) as usize;
    let y = (n / (req.width as int)) as usize;
    let ray = generate_ray_spec(
        x,
        y,
        req.width,
        req.height,
        draw_spec(key, JITTER_STREAM as int, 0),
        draw_spec(key, JITTER_STREAM as int, 1),
    );
    shade_spec(sv, req.render_mode, ray, key)
}

/// Sum of the colours of the first `s` samples of pixel `n`.
pub open spec fn sample_sum(sv: SceneView, req: RenderRequest, n: int, s: nat) -> Vec3
    decreases s,
{
    if s == 0 {
        v3(0, 0, 0)
    } else {
        vadd_spec(sample_sum(sv, req, n, (s - 1) as nat), sample_color(sv, req, n, s - 1))
    }
}

/// A linear colour channel clamped to `[0, 1]` and quantised to a byte.
pub open spec fn to_byte(c: int) -> u8 {
    let k = if c < 0 {
        0
    } else if c > ONE {
        ONE as int
    } else {
        c
    };
    (k * 255 / (ONE as int)) as u8
}

pub open spec fn average(c: Vec3, count: int) -> Vec3 {
    v3(
        clamp(div_trunc(c.x as int, count)),
        clamp(div_trunc(c.y as int, count)),
        clamp(div_trunc(c.z as int, count)),
    )
}

/// The four bytes of pixel `n`: averaged samples, no tone curve, alpha 255.
pub open spec fn pixel_bytes(sv: SceneView, req: RenderRequest, n: int) -> Seq<u8> {
    let c = average(sample_sum(sv, req, n, req.sample_count as nat), req.sample_count as int);
    seq![to_byte(c.x as int), to_byte(c.y as int), to_byte(c.z as int), 255u8]
}

/// The bytes of the first `n` pixels, row-major from the top left.
pub open spec fn pixels_upto(sv: SceneView, req: RenderRequest, n: nat) -> Seq<u8>
    decreases n,
{
    if n == 0 {
        Seq::empty()
    } else {
        pixels_upto(sv, req, (n - 1) as nat) + pixel_bytes(sv, req, n - 1)
    }
}

/// The frame a request asks for: its error if it breaks a bound, else the
/// RGBA bytes of every pixel of its scene.
pub open spec fn render_outcome(req: RenderRequest) -> Result<Seq<u8>, RenderError> {
    match request_fault(req) {
        Some(f) => Err(RenderError::InvalidRequest(f)),
        None => Ok(pixels_upto(catalog(req.scene_index as int), req, (req.width * req.height) as nat)),
    }
}

pub open spec fn outcome_view(r: Result<Vec<u8>, RenderError>) -> Result<Seq<u8>, RenderError> {
    match r {
        Ok(v) => Ok(v@),
        Err(e) => Err(e),
    }
}

pub proof fn lemma_pixels_len(sv: SceneView, req: RenderRequest, n: nat)
    ensures
        pixels_upto(sv, req, n).len() == 4 * n,
    decreases n,
{
    if n > 0 {
        lemma_pixels_len(sv, req, (n - 1) as nat);
    }
}

fn sample_key_exec(seed: u64, n: usize, s: u32) -> (r: u64)
    ensures
        r == sample_key(seed, n as int, s as int),
{
    let i: u128 = (n as u128 * SAMPLE_BLOCK + s as u128) % WORD_SPAN;
    ((seed as u128 + i * SAMPLE_STEP) % WORD_SPAN) as u64
}

fn to_byte_exec(c: i64) -> (r: u8)
    ensures
        r == to_byte(c as int),
{
    let k: i64 = if c < 0 {
        0
    } else if c > ONE {
        ONE
    } else {
        c
    };
    (k * 255 / ONE) as u8
}

/// Renders pixel `n` (row-major from the top left) of the request's frame.
pub fn render_pixel(scene: &Scene, req: &RenderRequest, n: usize) -> (r: [u8; 4])
    requires
        scene@.wf(),
        req.width > 0,
        req.height > 0,
        1 <= req.sample_count <= MAX_SAMPLES,
    ensures
        r@ == pixel_bytes(scene@, *req, n as int),
{
    let x = n % req.width;
    let y = n / req.width;
    let mut sum = Vec3::new(0, 0, 0);
    let mut s: u32 = 0;
    while s < req.sample_count
        invariant
            s <= req.sample_count,
            scene@.wf(),
            req.height > 0,
            x == n as int % req.width as int,
            y == n as int / req.width as int,
            sum == sample_sum(scene@, *req, n as int, s as nat),
        decreases req.sample_count - s,
    {
        let key = sample_key_exec(req.seed, n, s);
        let jx = draw(key, JITTER_STREAM, 0);
        let jy = draw(key, JITTER_STREAM, 1);
        let ray = generate_ray(x, y, req.width, req.height, jx, jy);
        let c = shade(scene, req.render_mode, &ray, key);
        sum = sum.add(c);
        s += 1;
    }
    let count = req.sample_count as i128;
    let avg = Vec3::new(
        saturate(wide_div(sum.x as i128, count)),
        saturate(wide_div(sum.y as i128, count)),
        saturate(wide_div(sum.z as i128, count)),
    );
    let r = [to_byte_exec(avg.x), to_byte_exec(avg.y), to_byte_exec(avg.z), 255u8];
    assert(r@ =~= pixel_bytes(scene@, *req, n as int));
    r
}

/// Validates the request, resolves its scene and renders every pixel.
pub fn render(req: &RenderRequest) -> (r: Result<Vec<u8>, RenderError>)
    requires
        req.width * req.height * 4 <= usize::MAX,
    ensures
        outcome_view(r) == render_outcome(*req),
        r is Ok ==> r->Ok_0@.len() == req.width * req.height * 4,
{
    if req.width == 0 || req.height == 0 {
        return Err(RenderError::InvalidRequest(RequestFault::Dimensions));
    }
    if req.sample_count < 1 || req.sample_count > MAX_SAMPLES {
        return Err(RenderError::InvalidRequest(RequestFault::SampleCount));
    }
    let scene = match resolve(req.scene_index) {
        Ok(s) => s,
        Err(_) => {
            return Err(RenderError::InvalidRequest(RequestFault::SceneIndex));
        },
    };
    let total = req.width * req.height;
    let mut buf: Vec<u8> = Vec::with_capacity(total * 4);
    let mut n: usize = 0;
    while n < total
        invariant
            n <= total,
            total == req.width * req.height,
            scene@ == catalog(req.scene_index as int),
            scene@.wf(),
            req.width > 0,
            req.height > 0,
            1 <= req.sample_count <= MAX_SAMPLES,
            buf@ == pixels_upto(scene@, *req, n as nat),
        decreases total - n,
    {
        let px = render_pixel(&scene, req, n);
        buf.push(px[0]);
        buf.push(px[1]);
        buf.push(px[2]);
        buf.push(px[3]);
        assert(buf@ =~= pixels_upto(scene@, *req, (n + 1) as nat));
        n += 1;
    }
    proof {
        lemma_pixels_len(scene@, *req, total as nat);
    }
    Ok(buf)
}

/// Rendering is a function of the request: two calls on equal requests
/// return the same outcome, byte for byte.
pub proof fn law_render_deterministic(
    req: RenderRequest,
    first: Result<Vec<u8>, RenderError>,
    second: Result<Vec<u8>, RenderError>,
)
    requires
        outcome_view(first) == render_outcome(req),
        outcome_view(second) == render_outcome(req),
    ensures
        outcome_view(first) == outcome_view(second),
        first is Ok <==> second is Ok,
        first is Ok ==> first->Ok_0@ == second->Ok_0@,
{
}

/// A request with no samples, or with a scene index past the catalog, is
/// rejected as invalid rather than rendered.
pub proof fn law_out_of_range_rejected(req: RenderRequest)
    requires
        req.width > 0,
        req.height > 0,
    ensures
        req.sample_count == 0 ==> render_outcome(req) == Err::<Seq<u8>, RenderError>(
            RenderError::InvalidRequest(RequestFault::SampleCount),
        ),
        req.scene_index >= SCENE_COUNT ==> render_outcome(req) is Err,
{
}

} // verus!
