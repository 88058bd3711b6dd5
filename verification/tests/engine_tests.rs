use raytracer::accum::AccumulationBuffer;
use raytracer::camera::Camera;
use raytracer::engine::{classify_acquire_error, AcquireError, AcquireResponse, RenderEngine};
use raytracer::scene::{Material, Scene, Sphere};

fn sphere() -> Sphere {
    Sphere { pos_x: 0, pos_y: 0, pos_z: 0, radius: 1, material_index: 0 }
}

fn material() -> Material {
    Material {
        albedo_r: 0,
        albedo_g: 0,
        albedo_b: 0,
        roughness: 0,
        emission_r: 0,
        emission_g: 0,
        emission_b: 0,
        emission_strength: 0,
    }
}

fn default_scene() -> Scene {
    Scene::new(sphere(), material())
}

#[test]
fn accumulation_bytes_are_sixteen_per_pixel() {
    assert_eq!(AccumulationBuffer::calculate_bytes(800, 600), 7_680_000);
    assert_eq!(AccumulationBuffer::calculate_bytes(1, 1), 16);
    assert_eq!(AccumulationBuffer::calculate_bytes(1920, 1080), 33_177_600);
    assert_eq!(AccumulationBuffer::calculate_bytes(u32::MAX, 1), 68_719_476_720);
}

#[test]
fn new_engine_starts_clean() {
    let scene = default_scene();
    let engine = RenderEngine::new(800, 600, &scene);
    assert_eq!(engine.uniform.frames_accumulated, 0);
    assert_eq!(engine.uniform.time_ticks, 0);
    assert!(engine.uniform.accumulate);
    assert_eq!(engine.spheres_buffer.len, 1);
    assert_eq!(engine.materials_buffer.len, 1);
    assert_eq!(engine.accumulation.size_bytes, 7_680_000);
}

#[test]
fn quiet_frames_count_up_by_one() {
    let mut scene = default_scene();
    let mut camera = Camera::new(0, 0);
    let mut engine = RenderEngine::new(800, 600, &scene);
    for expected in 1..=5u32 {
        let actions = engine.update_buffers(&mut camera, &mut scene);
        assert_eq!(engine.uniform.frames_accumulated, expected);
        assert!(!actions.realloc_accumulation);
        assert!(!actions.rebuild_scene_binding);
    }
    assert_eq!(engine.uniform.time_ticks, 5);
}

#[test]
fn reset_twice_matches_reset_once() {
    let scene = default_scene();
    let mut once = RenderEngine::new(800, 600, &scene);
    let mut twice = RenderEngine::new(800, 600, &scene);
    once.reset_accumulation();
    twice.reset_accumulation();
    twice.reset_accumulation();
    assert_eq!(once.uniform.frames_accumulated, 1);
    assert_eq!(twice.uniform.frames_accumulated, 1);
    assert_eq!(once.uniform, twice.uniform);
    assert_eq!(once.reset_pending, twice.reset_pending);
    assert_eq!(once.accumulation.size_bytes, twice.accumulation.size_bytes);
}

#[test]
fn explicit_reset_holds_counter_at_one_next_frame() {
    let mut scene = default_scene();
    let mut camera = Camera::new(0, 0);
    let mut engine = RenderEngine::new(800, 600, &scene);
    engine.update_buffers(&mut camera, &mut scene);
    engine.update_buffers(&mut camera, &mut scene);
    assert_eq!(engine.uniform.frames_accumulated, 2);
    engine.reset_accumulation();
    let actions = engine.update_buffers(&mut camera, &mut scene);
    assert_eq!(engine.uniform.frames_accumulated, 1);
    assert!(actions.realloc_accumulation);
    assert!(actions.rebuild_accumulation_binding);
}

#[test]
fn resize_invalidates_accumulation() {
    let mut scene = default_scene();
    let mut camera = Camera::new(0, 0);
    let mut engine = RenderEngine::new(800, 600, &scene);
    engine.update_buffers(&mut camera, &mut scene);
    engine.update_buffers(&mut camera, &mut scene);
    engine.resize(1024, 768);
    assert_eq!(engine.uniform.width, 1024);
    assert_eq!(engine.uniform.height, 768);
    assert_eq!(engine.uniform.frames_accumulated, 1);
    assert_eq!(engine.accumulation.size_bytes, 1024 * 768 * 16);
    let actions = engine.update_buffers(&mut camera, &mut scene);
    assert_eq!(engine.uniform.frames_accumulated, 1);
    assert!(actions.realloc_accumulation);
}

#[test]
fn resize_to_same_size_is_a_valid_fresh_start() {
    let mut scene = default_scene();
    let mut camera = Camera::new(0, 0);
    let mut engine = RenderEngine::new(800, 600, &scene);
    engine.update_buffers(&mut camera, &mut scene);
    let generation_before = engine.accumulation.generation;
    engine.resize(800, 600);
    assert_eq!(engine.uniform.width, 800);
    assert_eq!(engine.uniform.height, 600);
    assert_eq!(engine.uniform.frames_accumulated, 1);
    assert_eq!(engine.accumulation.size_bytes, 7_680_000);
    assert_eq!(engine.accumulation.generation, generation_before + 1);
    assert_eq!(engine.accumulation_binding.generation, engine.accumulation.generation);
}

#[test]
fn camera_move_invalidates_and_is_consumed() {
    let mut scene = default_scene();
    let mut camera = Camera::new(0, 0);
    let mut engine = RenderEngine::new(800, 600, &scene);
    engine.update_buffers(&mut camera, &mut scene);
    engine.update_buffers(&mut camera, &mut scene);
    camera.apply_look_delta(150, -75);
    assert!(camera.moved);
    let actions = engine.update_buffers(&mut camera, &mut scene);
    assert_eq!(engine.uniform.frames_accumulated, 1);
    assert!(actions.realloc_accumulation);
    assert!(!camera.moved);
    let _ = engine.update_buffers(&mut camera, &mut scene);
    assert_eq!(engine.uniform.frames_accumulated, 2);
}

#[test]
fn scene_growth_invalidates_and_resizes_buffer() {
    let mut scene = default_scene();
    let mut camera = Camera::new(0, 0);
    let mut engine = RenderEngine::new(800, 600, &scene);
    engine.update_buffers(&mut camera, &mut scene);
    scene.add_material(material());
    let actions = engine.update_buffers(&mut camera, &mut scene);
    assert_eq!(engine.uniform.frames_accumulated, 1);
    assert!(actions.realloc_materials);
    assert!(!actions.realloc_spheres);
    assert!(actions.rebuild_scene_binding);
    assert_eq!(engine.materials_buffer.len, 2);
}

#[test]
fn simultaneous_triggers_reset_once_to_one() {
    let mut scene = default_scene();
    let mut camera = Camera::new(0, 0);
    let mut engine = RenderEngine::new(800, 600, &scene);
    engine.update_buffers(&mut camera, &mut scene);
    engine.update_buffers(&mut camera, &mut scene);
    engine.reset_accumulation();
    camera.apply_look_delta(10, 10);
    scene.add_sphere(sphere());
    scene.add_material(material());
    let actions = engine.update_buffers(&mut camera, &mut scene);
    assert_eq!(engine.uniform.frames_accumulated, 1);
    assert!(actions.realloc_spheres);
    assert!(actions.realloc_materials);
    assert!(actions.realloc_accumulation);
}

#[test]
fn look_then_frame_resets_and_clears_moved() {
    let mut scene = default_scene();
    let mut camera = Camera::new(0, 0);
    let mut engine = RenderEngine::new(800, 600, &scene);
    engine.update_buffers(&mut camera, &mut scene);
    engine.update_buffers(&mut camera, &mut scene);
    engine.update_buffers(&mut camera, &mut scene);
    assert_eq!(engine.uniform.frames_accumulated, 3);
    assert!(!camera.moved);
    camera.apply_look_delta(500, 0);
    assert!(camera.moved);
    engine.update_buffers(&mut camera, &mut scene);
    assert_eq!(engine.uniform.frames_accumulated, 1);
    assert!(!camera.moved);
}

#[test]
fn three_added_spheres_rebuild_binding_exactly_once() {
    let mut scene = default_scene();
    let mut camera = Camera::new(0, 0);
    let mut engine = RenderEngine::new(800, 600, &scene);
    engine.update_buffers(&mut camera, &mut scene);
    scene.add_sphere(sphere());
    scene.add_sphere(sphere());
    scene.add_sphere(sphere());
    let mut rebuilds: u32 = 0;
    let actions = engine.update_buffers(&mut camera, &mut scene);
    if actions.rebuild_scene_binding {
        rebuilds += 1;
    }
    assert_eq!(engine.spheres_buffer.len, 4);
    let actions = engine.update_buffers(&mut camera, &mut scene);
    if actions.rebuild_scene_binding {
        rebuilds += 1;
    }
    assert_eq!(rebuilds, 1);
    assert_eq!(engine.spheres_buffer.len, 4);
}

#[test]
fn accumulate_toggle_each_direction_resets() {
    let mut scene = default_scene();
    let mut camera = Camera::new(0, 0);
    let mut engine = RenderEngine::new(800, 600, &scene);
    engine.update_buffers(&mut camera, &mut scene);
    engine.update_buffers(&mut camera, &mut scene);
    engine.set_accumulate(false);
    assert_eq!(engine.uniform.frames_accumulated, 1);
    engine.update_buffers(&mut camera, &mut scene);
    assert_eq!(engine.uniform.frames_accumulated, 1);
    engine.set_accumulate(true);
    engine.update_buffers(&mut camera, &mut scene);
    assert_eq!(engine.uniform.frames_accumulated, 1);
}

#[test]
fn setting_accumulate_to_same_value_changes_nothing() {
    let mut scene = default_scene();
    let mut camera = Camera::new(0, 0);
    let mut engine = RenderEngine::new(800, 600, &scene);
    engine.update_buffers(&mut camera, &mut scene);
    engine.update_buffers(&mut camera, &mut scene);
    let before = engine;
    engine.set_accumulate(true);
    assert_eq!(engine, before);
    assert_eq!(engine.uniform.frames_accumulated, 2);
}

#[test]
fn acquire_errors_classified_per_taxonomy() {
    assert_eq!(classify_acquire_error(AcquireError::Timeout), AcquireResponse::SkipFrame);
    assert_eq!(classify_acquire_error(AcquireError::Lost), AcquireResponse::ReconfigureTarget);
    assert_eq!(classify_acquire_error(AcquireError::Outdated), AcquireResponse::ReconfigureTarget);
    assert_eq!(classify_acquire_error(AcquireError::OutOfMemory), AcquireResponse::Abort);
}
