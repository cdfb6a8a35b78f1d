use rrrrrrr::{
    get_max_quadratic_size, render, RenderError, RenderMode, RenderRequest, RequestFault, MAX_SAMPLES,
};

fn request(width: usize, height: usize, sample_count: u32, mode: RenderMode, scene_index: usize, seed: u64) -> RenderRequest {
    RenderRequest { width, height, sample_count, render_mode: mode, scene_index, seed }
}

fn pixels(buf: &[u8]) -> Vec<[u8; 4]> {
    buf.chunks(4).map(|c| [c[0], c[1], c[2], c[3]]).collect()
}

#[test]
fn end_to_end_normals_single_plane() {
    let buf = render(&request(4, 4, 1, RenderMode::Normals, 0, 42)).unwrap();
    assert_eq!(buf.len(), 4 * 4 * 4);
    for p in pixels(&buf) {
        assert_eq!(p, [127, 127, 255, 255]);
    }
}

#[test]
fn render_is_deterministic_in_every_mode() {
    for mode in [RenderMode::Normals, RenderMode::Raycast, RenderMode::Raytrace, RenderMode::Pathtracing] {
        for scene in 0..10 {
            let req = request(6, 5, 2, mode, scene, 7);
            let a = render(&req).unwrap();
            let b = render(&req).unwrap();
            assert_eq!(a, b);
            assert_eq!(a.len(), 6 * 5 * 4);
        }
    }
}

#[test]
fn zero_samples_is_invalid() {
    let r = render(&request(4, 4, 0, RenderMode::Normals, 0, 0));
    assert_eq!(r, Err(RenderError::InvalidRequest(RequestFault::SampleCount)));
}

#[test]
fn too_many_samples_is_invalid() {
    let r = render(&request(4, 4, MAX_SAMPLES + 1, RenderMode::Raycast, 0, 0));
    assert_eq!(r, Err(RenderError::InvalidRequest(RequestFault::SampleCount)));
}

#[test]
fn scene_index_ten_is_invalid() {
    let r = render(&request(4, 4, 1, RenderMode::Normals, 10, 0));
    assert_eq!(r, Err(RenderError::InvalidRequest(RequestFault::SceneIndex)));
}

#[test]
fn zero_width_is_invalid() {
    let r = render(&request(0, 4, 1, RenderMode::Normals, 0, 0));
    assert_eq!(r, Err(RenderError::InvalidRequest(RequestFault::Dimensions)));
    let r = render(&request(4, 0, 1, RenderMode::Normals, 0, 0));
    assert_eq!(r, Err(RenderError::InvalidRequest(RequestFault::Dimensions)));
}

#[test]
fn largest_sample_count_renders() {
    let buf = render(&request(2, 2, MAX_SAMPLES, RenderMode::Normals, 0, 1)).unwrap();
    for p in pixels(&buf) {
        assert_eq!(p, [127, 127, 255, 255]);
    }
}

#[test]
fn raycast_inside_enclosing_sphere_is_ambient() {
    let buf = render(&request(8, 8, 1, RenderMode::Raycast, 4, 3)).unwrap();
    for p in pixels(&buf) {
        assert_eq!(p, [11, 11, 11, 255]);
    }
}

#[test]
fn raytrace_nested_mirrors_terminates() {
    let buf = render(&request(16, 16, 2, RenderMode::Raytrace, 6, 5)).unwrap();
    assert_eq!(buf.len(), 16 * 16 * 4);
    assert!(pixels(&buf).iter().all(|p| p[3] == 255));
}

#[test]
fn raytrace_differs_from_raycast_on_mirrors() {
    let a = render(&request(8, 8, 1, RenderMode::Raycast, 6, 0)).unwrap();
    let b = render(&request(8, 8, 1, RenderMode::Raytrace, 6, 0)).unwrap();
    assert_ne!(a, b);
}

fn red_variance(samples: u32) -> f64 {
    let values: Vec<f64> = (0..40u64)
        .map(|seed| render(&request(1, 1, samples, RenderMode::Pathtracing, 5, seed)).unwrap()[0] as f64)
        .collect();
    let mean = values.iter().sum::<f64>() / values.len() as f64;
    values.iter().map(|v| (v - mean) * (v - mean)).sum::<f64>() / values.len() as f64
}

#[test]
fn pathtracing_variance_drops_with_samples() {
    let one = red_variance(1);
    let hundred = red_variance(100);
    assert!(one > 0.0);
    assert!(hundred < one);
}

#[test]
fn pathtracing_seed_changes_image() {
    let a = render(&request(8, 8, 1, RenderMode::Pathtracing, 5, 1)).unwrap();
    let b = render(&request(8, 8, 1, RenderMode::Pathtracing, 5, 2)).unwrap();
    assert_ne!(a, b);
}

#[test]
fn default_seed_request() {
    let req = RenderRequest::new(3, 2, 1, RenderMode::Raycast, 1);
    assert_eq!(req.seed, rrrrrrr::DEFAULT_SEED);
    assert_eq!(render(&req).unwrap().len(), 3 * 2 * 4);
}

#[test]
fn quadratic_size_is_smaller_side() {
    assert_eq!(get_max_quadratic_size([640, 480]), [480, 480]);
    assert_eq!(get_max_quadratic_size([300, 900]), [300, 300]);
    assert_eq!(get_max_quadratic_size([0, 5]), [0, 0]);
}
