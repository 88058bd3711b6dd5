//! The scene store: the primitives and materials being rendered, with
//! structural dirty tracking.
//!
//! Scalar fields hold the raw 32-bit encodings that the GPU buffers
//! carry; the store never does arithmetic on them, it only appends,
//! edits in place, and reports structural growth.  Structural growth
//! (a count change) sets a dirty flag that the render orchestrator
//! consumes to reallocate the GPU buffer; in-place field edits leave
//! the flags alone, because the full buffer contents are re-uploaded
//! every frame anyway.

use vstd::prelude::*;

verus! {

/// A sphere primitive.  The position and radius are raw 32-bit scalar
/// encodings as the GPU buffer holds them; `material_index` refers
/// into the material list and must stay below its length at render
/// time (a documented render-time precondition, not checked here).
#[derive(Clone, Copy, Debug, PartialEq, Eq, Structural)]
pub struct Sphere {
    /// Raw encoding of the x coordinate of the centre.
    pub pos_x: u32,
    /// Raw encoding of the y coordinate of the centre.
    pub pos_y: u32,
    /// Raw encoding of the z coordinate of the centre.
    pub pos_z: u32,
    /// Raw encoding of the radius.
    pub radius: u32,
    /// Index of the sphere's material in the scene's material list.
    pub material_index: u32,
}

/// A surface material.  All fields are raw 32-bit scalar encodings as
/// the GPU buffer holds them.
#[derive(Clone, Copy, Debug, PartialEq, Eq, Structural)]
pub struct Material {
    /// Raw encodings of the red, green and blue diffuse components.
    pub albedo_r: u32,
    pub albedo_g: u32,
    pub albedo_b: u32,
    /// Raw encoding of the roughness in [0, 1].
    pub roughness: u32,
    /// Raw encodings of the emitted color.
    pub emission_r: u32,
    pub emission_g: u32,
    pub emission_b: u32,
    /// Raw encoding of the emission strength in [0, 1].
    pub emission_strength: u32,
}

/// The mutable scene store: ordered sphere and material lists and one
/// dirty flag per list, set on structural growth only.
#[derive(Debug)]
pub struct Scene {
    /// The spheres currently in the scene.
    pub spheres: Vec<Sphere>,
    /// The materials loaded in the scene.
    pub materials: Vec<Material>,
    /// Whether the sphere count changed since the last reconciliation.
    pub spheres_dirty: bool,
    /// Whether the material count changed since the last reconciliation.
    pub materials_dirty: bool,
}

impl Scene {
    /// Creates a scene holding one initial sphere and one initial
    /// material, with both dirty flags clear.
    pub fn new(sphere: Sphere, material: Material) -> (scene: Scene)
        ensures
            scene.spheres@ == seq![sphere],
            scene.materials@ == seq![material],
            !scene.spheres_dirty,
            !scene.materials_dirty,
    {
        let mut spheres: Vec<Sphere> = Vec::new();
        spheres.push(sphere);
        let mut materials: Vec<Material> = Vec::new();
        materials.push(material);
        proof {
            assert(spheres@ =~= seq![sphere]);
            assert(materials@ =~= seq![material]);
        }
        Scene { spheres, materials, spheres_dirty: false, materials_dirty: false }
    }

    /// Appends a sphere and marks the sphere list structurally dirty.
    pub fn add_sphere(&mut self, sphere: Sphere)
        ensures
            final(self).spheres@ == old(self).spheres@.push(sphere),
            final(self).spheres_dirty,
            final(self).materials@ == old(self).materials@,
            final(self).materials_dirty == old(self).materials_dirty,
    {
        self.spheres.push(sphere);
        self.spheres_dirty = true;
    }

    /// Appends a material and marks the material list structurally dirty.
    pub fn add_material(&mut self, material: Material)
        ensures
            final(self).materials@ == old(self).materials@.push(material),
            final(self).materials_dirty,
            final(self).spheres@ == old(self).spheres@,
            final(self).spheres_dirty == old(self).spheres_dirty,
    {
        self.materials.push(material);
        self.materials_dirty = true;
    }

    /// Read access to the sphere list.
    pub fn spheres(&self) -> (r: &Vec<Sphere>)
        ensures
            r@ == self.spheres@,
    {
        &self.spheres
    }

    /// Read access to the material list.
    pub fn materials(&self) -> (r: &Vec<Material>)
        ensures
            r@ == self.materials@,
    {
        &self.materials
    }

    /// Edits one sphere in place.  Field edits do not touch the dirty
    /// flags: the full buffer is re-uploaded every frame, so only a
    /// count change needs a reallocation.
    pub fn set_sphere(&mut self, index: usize, sphere: Sphere)
        requires
            index < old(self).spheres@.len(),
        ensures
            final(self).spheres@ == old(self).spheres@.update(index as int, sphere),
            final(self).materials@ == old(self).materials@,
            final(self).spheres_dirty == old(self).spheres_dirty,
            final(self).materials_dirty == old(self).materials_dirty,
    {
        self.spheres.set(index, sphere);
    }

    /// Edits one material in place, leaving the dirty flags alone.
    pub fn set_material(&mut self, index: usize, material: Material)
        requires
            index < old(self).materials@.len(),
        ensures
            final(self).materials@ == old(self).materials@.update(index as int, material),
            final(self).spheres@ == old(self).spheres@,
            final(self).spheres_dirty == old(self).spheres_dirty,
            final(self).materials_dirty == old(self).materials_dirty,
    {
        self.materials.set(index, material);
    }

    /// Hands out both dirty flags and clears them: the reconciliation
    /// contract consumed by the render orchestrator.  When either flag
    /// was set, the corresponding GPU buffer must be reallocated to
    /// the new size before the next upload, and the binding set that
    /// references it rebuilt.
    pub fn take_and_clear_dirty(&mut self) -> (r: (bool, bool))
        ensures
            r.0 == old(self).spheres_dirty,
            r.1 == old(self).materials_dirty,
            !final(self).spheres_dirty,
            !final(self).materials_dirty,
            final(self).spheres@ == old(self).spheres@,
            final(self).materials@ == old(self).materials@,
    {
        let r = (self.spheres_dirty, self.materials_dirty);
        self.spheres_dirty = false;
        self.materials_dirty = false;
        r
    }
}

} // verus!
