use raytracer::scene::{Material, Scene, Sphere};

fn sphere(radius: u32) -> Sphere {
    Sphere { pos_x: 0, pos_y: 0, pos_z: 0, radius, material_index: 0 }
}

fn material(roughness: u32) -> Material {
    Material {
        albedo_r: 1,
        albedo_g: 2,
        albedo_b: 3,
        roughness,
        emission_r: 0,
        emission_g: 0,
        emission_b: 0,
        emission_strength: 0,
    }
}

#[test]
fn new_scene_holds_defaults_and_is_clean() {
    let scene = Scene::new(sphere(5), material(7));
    assert_eq!(scene.spheres().len(), 1);
    assert_eq!(scene.materials().len(), 1);
    assert_eq!(scene.spheres()[0], sphere(5));
    assert_eq!(scene.materials()[0], material(7));
    assert!(!scene.spheres_dirty);
    assert!(!scene.materials_dirty);
}

#[test]
fn add_sphere_appends_and_marks_dirty() {
    let mut scene = Scene::new(sphere(5), material(7));
    scene.add_sphere(sphere(9));
    assert_eq!(scene.spheres().len(), 2);
    assert_eq!(scene.spheres()[1], sphere(9));
    assert!(scene.spheres_dirty);
    assert!(!scene.materials_dirty);
}

#[test]
fn add_material_appends_and_marks_dirty() {
    let mut scene = Scene::new(sphere(5), material(7));
    scene.add_material(material(2));
    assert_eq!(scene.materials().len(), 2);
    assert_eq!(scene.materials()[1], material(2));
    assert!(scene.materials_dirty);
    assert!(!scene.spheres_dirty);
}

#[test]
fn in_place_edits_leave_dirty_flags_alone() {
    let mut scene = Scene::new(sphere(5), material(7));
    scene.set_sphere(0, sphere(11));
    scene.set_material(0, material(3));
    assert_eq!(scene.spheres()[0], sphere(11));
    assert_eq!(scene.materials()[0], material(3));
    assert!(!scene.spheres_dirty);
    assert!(!scene.materials_dirty);
}

#[test]
fn take_and_clear_dirty_reports_then_clears() {
    let mut scene = Scene::new(sphere(5), material(7));
    scene.add_sphere(sphere(9));
    let (spheres_dirty, materials_dirty) = scene.take_and_clear_dirty();
    assert!(spheres_dirty);
    assert!(!materials_dirty);
    assert!(!scene.spheres_dirty);
    assert!(!scene.materials_dirty);
    let (spheres_dirty, materials_dirty) = scene.take_and_clear_dirty();
    assert!(!spheres_dirty);
    assert!(!materials_dirty);
    assert_eq!(scene.spheres().len(), 2);
}
