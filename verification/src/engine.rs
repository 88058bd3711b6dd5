//! The render orchestrator state: per-frame reconciliation of the
//! uniform block, the scene buffers, and the progressive accumulation
//! state machine.
//!
//! The engine decides which GPU resources a frame must reallocate or
//! rebind and keeps the one correctness-critical invariant of the
//! design: a binding set built from a stale buffer allocation is never
//! left standing, and the accumulated image is invalidated — the frame
//! counter driven back to 1 — exactly when the viewport, the camera,
//! the scene structure or the accumulate toggle changes.  The GPU
//! allocations, uploads and render passes themselves are carried out
//! by the rendering collaborator, which follows the `FrameActions`
//! plan the engine returns.

use vstd::prelude::*;

use crate::accum::{accumulation_bytes, AccumulationBuffer};
use crate::camera::Camera;
use crate::scene::Scene;
use crate::uniform::RenderUniform;

verus! {

/// Model of one GPU storage buffer: the element count it was sized for
/// and an allocation generation, bumped on each reallocation.
#[derive(Clone, Copy, Debug, PartialEq, Eq, Structural)]
pub struct BufferSlot {
    /// Counts fresh allocations of this buffer.
    pub generation: u64,
    /// How many elements the current allocation holds.
    pub len: usize,
}

/// Model of the binding set that exposes the two scene buffers to the
/// shader: the buffer generations it was built from.  It is stale —
/// and must be rebuilt before the next draw — whenever either recorded
/// generation falls behind the buffer it references.
#[derive(Clone, Copy, Debug, PartialEq, Eq, Structural)]
pub struct SceneBinding {
    pub spheres_generation: u64,
    pub materials_generation: u64,
}

/// Model of the binding set that exposes the accumulation buffer.
#[derive(Clone, Copy, Debug, PartialEq, Eq, Structural)]
pub struct AccumulationBinding {
    pub generation: u64,
}

/// The GPU work one frame's reconciliation asks of the collaborator,
/// to be performed before the uploads and draws of that frame.
#[derive(Clone, Copy, Debug, PartialEq, Eq, Structural)]
pub struct FrameActions {
    /// Allocate a new sphere buffer sized for the current sphere count.
    pub realloc_spheres: bool,
    /// Allocate a new material buffer sized for the current material count.
    pub realloc_materials: bool,
    /// Rebuild the scene binding set from the (re)allocated buffers.
    pub rebuild_scene_binding: bool,
    /// Allocate a fresh accumulation buffer for the current viewport.
    pub realloc_accumulation: bool,
    /// Rebuild the accumulation binding set from the fresh buffer.
    pub rebuild_accumulation_binding: bool,
}

/// Why the next presentable frame could not be acquired.
#[derive(Clone, Copy, Debug, PartialEq, Eq, Structural)]
pub enum AcquireError {
    /// Waiting for the next frame timed out.
    Timeout,
    /// The output surface was lost.
    Lost,
    /// The output surface no longer matches its configuration.
    Outdated,
    /// The device ran out of memory.
    OutOfMemory,
}

/// How the orchestrator answers a failed frame acquisition.
#[derive(Clone, Copy, Debug, PartialEq, Eq, Structural)]
pub enum AcquireResponse {
    /// Transient: abandon this frame and try again next tick.
    SkipFrame,
    /// Structural: reconfigure the output target at the current window
    /// size, which forces an accumulation reset via the resize path.
    ReconfigureTarget,
    /// Fatal: abort, no recovery is attempted.
    Abort,
}

/// Classifies a frame-acquisition failure per the error taxonomy: a
/// timeout is transient and skips the frame, a lost or outdated
/// surface is structural and reconfigures the target, out-of-memory is
/// fatal.
pub fn classify_acquire_error(error: AcquireError) -> (r: AcquireResponse)
    ensures
        error == AcquireError::Timeout ==> r == AcquireResponse::SkipFrame,
        error == AcquireError::Lost ==> r == AcquireResponse::ReconfigureTarget,
        error == AcquireError::Outdated ==> r == AcquireResponse::ReconfigureTarget,
        error == AcquireError::OutOfMemory ==> r == AcquireResponse::Abort,
{
    match error {
        AcquireError::Timeout => AcquireResponse::SkipFrame,
        AcquireError::Lost => AcquireResponse::ReconfigureTarget,
        AcquireError::Outdated => AcquireResponse::ReconfigureTarget,
        AcquireError::OutOfMemory => AcquireResponse::Abort,
    }
}

/// The render orchestrator's own state: the uniform block, the pending
/// invalidation latch, and the models of every GPU resource whose
/// lifetime the per-frame sequence manages.
#[derive(Clone, Copy, Debug, PartialEq, Eq, Structural)]
pub struct RenderEngine {
    /// The scalar per-frame uniform data.
    pub uniform: RenderUniform,
    /// Latched invalidation: set by a resize, an accumulate flip or an
    /// explicit reset, consumed by the next reconciliation so that the
    /// frame counter holds at 1 instead of advancing.
    pub reset_pending: bool,
    /// The GPU buffer holding the sphere list.
    pub spheres_buffer: BufferSlot,
    /// The GPU buffer holding the material list.
    pub materials_buffer: BufferSlot,
    /// The binding set referencing both scene buffers.
    pub scene_binding: SceneBinding,
    /// The accumulation buffer.
    pub accumulation: AccumulationBuffer,
    /// The binding set referencing the accumulation buffer.
    pub accumulation_binding: AccumulationBinding,
}

impl RenderEngine {
    /// The resource-lifetime invariant: the output target is never
    /// zero-sized, the accumulation buffer is sized for it, no binding
    /// set is stale, and a latched invalidation always has the frame
    /// counter already at 1.
    pub open spec fn wf(self) -> bool {
        &&& self.uniform.width > 0
        &&& self.uniform.height > 0
        &&& accumulation_bytes(self.uniform.width, self.uniform.height) <= u64::MAX
        &&& self.accumulation.size_bytes == accumulation_bytes(
            self.uniform.width,
            self.uniform.height,
        )
        &&& self.accumulation_binding.generation == self.accumulation.generation
        &&& self.scene_binding.spheres_generation == self.spheres_buffer.generation
        &&& self.scene_binding.materials_generation == self.materials_buffer.generation
        &&& (self.reset_pending ==> self.uniform.frames_accumulated == 1)
    }

    /// The scene buffers are sized for the scene whenever the scene is
    /// not structurally dirty.
    pub open spec fn synced_with(self, scene: Scene) -> bool {
        &&& (!scene.spheres_dirty ==> self.spheres_buffer.len == scene.spheres@.len())
        &&& (!scene.materials_dirty ==> self.materials_buffer.len == scene.materials@.len())
    }

    /// Whether the coming reconciliation must discard the accumulated
    /// image: a latched reset, a camera move, or structural scene
    /// growth.
    pub open spec fn invalidated(self, camera: Camera, scene: Scene) -> bool {
        self.reset_pending || camera.moved || scene.spheres_dirty || scene.materials_dirty
    }

    /// The accumulation counter after the coming reconciliation: back
    /// to 1 on any invalidation, advanced by one otherwise.
    pub open spec fn next_frames(self, camera: Camera, scene: Scene) -> int {
        if self.invalidated(camera, scene) {
            1
        } else {
            self.uniform.frames_accumulated + 1
        }
    }

    /// The engine after an accumulation reset: the frame counter back
    /// at 1, the invalidation latched for the coming reconciliation,
    /// and a fresh accumulation buffer (with its binding rebuilt)
    /// sized for the current viewport.
    pub open spec fn accumulation_reset_spec(self) -> RenderEngine {
        RenderEngine {
            uniform: RenderUniform { frames_accumulated: 1, ..self.uniform },
            reset_pending: true,
            accumulation: AccumulationBuffer {
                generation: (self.accumulation.generation + 1) as u64,
                size_bytes: accumulation_bytes(self.uniform.width, self.uniform.height) as u64,
            },
            accumulation_binding: AccumulationBinding {
                generation: (self.accumulation.generation + 1) as u64,
            },
            ..self
        }
    }

    /// Creates the engine for a freshly configured output target, with
    /// every buffer allocated once (generation 0) and sized for the
    /// given scene and viewport.
    pub fn new(width: u32, height: u32, scene: &Scene) -> (engine: RenderEngine)
        requires
            width > 0,
            height > 0,
            accumulation_bytes(width, height) <= u64::MAX,
        ensures
            engine.wf(),
            engine.synced_with(*scene),
            engine.uniform.width == width,
            engine.uniform.height == height,
            engine.uniform.frames_accumulated == 0,
            engine.uniform.accumulate,
            engine.uniform.time_ticks == 0,
            !engine.reset_pending,
            engine.spheres_buffer.len == scene.spheres@.len(),
            engine.materials_buffer.len == scene.materials@.len(),
            engine.accumulation.size_bytes == accumulation_bytes(width, height),
            engine.spheres_buffer.generation == 0,
            engine.materials_buffer.generation == 0,
            engine.accumulation.generation == 0,
    {
        RenderEngine {
            uniform: RenderUniform::new(width, height),
            reset_pending: false,
            spheres_buffer: BufferSlot { generation: 0, len: scene.spheres().len() },
            materials_buffer: BufferSlot { generation: 0, len: scene.materials().len() },
            scene_binding: SceneBinding { spheres_generation: 0, materials_generation: 0 },
            accumulation: AccumulationBuffer::new(width, height),
            accumulation_binding: AccumulationBinding { generation: 0 },
        }
    }

    /// Explicit manual invalidation: the frame counter returns to 1,
    /// the reset is latched for the coming reconciliation, and the
    /// accumulation buffer is replaced by a fresh allocation for the
    /// current viewport, its binding set rebuilt.
    pub fn reset_accumulation(&mut self)
        requires
            accumulation_bytes(old(self).uniform.width, old(self).uniform.height) <= u64::MAX,
            old(self).accumulation.generation < u64::MAX,
        ensures
            old(self).wf() ==> final(self).wf(),
            *final(self) == old(self).accumulation_reset_spec(),
            final(self).uniform.frames_accumulated == 1,
            final(self).reset_pending,
    {
        self.uniform.frames_accumulated = 1;
        self.reset_pending = true;
        self.accumulation.reset(self.uniform.width, self.uniform.height);
        self.accumulation_binding.generation = self.accumulation.generation;
    }

    /// Switches the accumulate toggle.  A flip in either direction
    /// invalidates the accumulated history — even switching it off
    /// changes what the output means — while setting the current value
    /// again changes nothing.
    pub fn set_accumulate(&mut self, value: bool)
        requires
            old(self).wf(),
            old(self).accumulation.generation < u64::MAX,
        ensures
            final(self).wf(),
            final(self).uniform.accumulate == value,
            value == old(self).uniform.accumulate ==> *final(self) == *old(self),
            value != old(self).uniform.accumulate ==> *final(self) == (RenderEngine {
                uniform: RenderUniform { accumulate: value, ..old(self).uniform },
                ..*old(self)
            }).accumulation_reset_spec(),
    {
        if value != self.uniform.accumulate {
            self.uniform.accumulate = value;
            self.reset_accumulation();
        }
    }

    /// Reconfigures the output target to a new size.  A zero-sized
    /// target must never be requested; the viewport dimensions change
    /// and the accumulation is reset — the buffer reallocated for the
    /// new size — even when the size is unchanged.
    pub fn resize(&mut self, width: u32, height: u32)
        requires
            old(self).wf(),
            width > 0,
            height > 0,
            accumulation_bytes(width, height) <= u64::MAX,
            old(self).accumulation.generation < u64::MAX,
        ensures
            final(self).wf(),
            *final(self) == (RenderEngine {
                uniform: RenderUniform { width: width, height: height, ..old(self).uniform },
                ..*old(self)
            }).accumulation_reset_spec(),
            final(self).uniform.width == width,
            final(self).uniform.height == height,
            final(self).uniform.frames_accumulated == 1,
            final(self).reset_pending,
            final(self).accumulation.size_bytes == accumulation_bytes(width, height),
    {
        self.uniform.width = width;
        self.uniform.height = height;
        self.reset_accumulation();
    }

    /// Rebuilds the scene binding set from the current buffer
    /// allocations when asked to; the explicit home of the rule that a
    /// buffer reallocation invalidates its dependent binding set.
    pub fn rebuild_scene_binding_if(&mut self, needed: bool)
        ensures
            needed ==> final(self).scene_binding == (SceneBinding {
                spheres_generation: old(self).spheres_buffer.generation,
                materials_generation: old(self).materials_buffer.generation,
            }),
            !needed ==> final(self).scene_binding == old(self).scene_binding,
            final(self).uniform == old(self).uniform,
            final(self).reset_pending == old(self).reset_pending,
            final(self).spheres_buffer == old(self).spheres_buffer,
            final(self).materials_buffer == old(self).materials_buffer,
            final(self).accumulation == old(self).accumulation,
            final(self).accumulation_binding == old(self).accumulation_binding,
    {
        if needed {
            self.scene_binding = SceneBinding {
                spheres_generation: self.spheres_buffer.generation,
                materials_generation: self.materials_buffer.generation,
            };
        }
    }

    /// One frame's reconciliation, run before the uploads and draws:
    /// the clock advances one tick; the camera's moved flag and the
    /// scene's dirty flags are consumed; the accumulation counter
    /// returns to 1 if anything invalidated the history and advances
    /// by one otherwise; any structurally grown scene buffer is
    /// reallocated to the new size and the binding set over it rebuilt.
    /// The returned actions tell the collaborator which GPU resources
    /// to reallocate and rebind before this frame is drawn.
    pub fn update_buffers(&mut self, camera: &mut Camera, scene: &mut Scene) -> (actions:
        FrameActions)
        requires
            old(self).wf(),
            old(self).synced_with(*old(scene)),
            old(self).uniform.frames_accumulated < u32::MAX,
            old(self).uniform.time_ticks < u32::MAX,
            old(self).accumulation.generation < u64::MAX,
            old(self).spheres_buffer.generation < u64::MAX,
            old(self).materials_buffer.generation < u64::MAX,
        ensures
            final(self).wf(),
            final(self).synced_with(*final(scene)),
            final(self).uniform.time_ticks == old(self).uniform.time_ticks + 1,
            final(self).uniform.frames_accumulated == old(self).next_frames(
                *old(camera),
                *old(scene),
            ),
            final(self).uniform.width == old(self).uniform.width,
            final(self).uniform.height == old(self).uniform.height,
            final(self).uniform.accumulate == old(self).uniform.accumulate,
            !final(self).reset_pending,
            !final(camera).moved,
            final(camera).yaw == old(camera).yaw,
            final(camera).pitch == old(camera).pitch,
            final(scene).spheres@ == old(scene).spheres@,
            final(scene).materials@ == old(scene).materials@,
            !final(scene).spheres_dirty,
            !final(scene).materials_dirty,
            actions.realloc_spheres == old(scene).spheres_dirty,
            actions.realloc_materials == old(scene).materials_dirty,
            actions.rebuild_scene_binding == (old(scene).spheres_dirty
                || old(scene).materials_dirty),
            actions.realloc_accumulation == old(self).invalidated(*old(camera), *old(scene)),
            actions.rebuild_accumulation_binding == actions.realloc_accumulation,
            final(self).spheres_buffer.len == old(scene).spheres@.len(),
            final(self).materials_buffer.len == old(scene).materials@.len(),
            final(self).spheres_buffer.generation == old(self).spheres_buffer.generation + (
            if old(scene).spheres_dirty {
                1int
            } else {
                0int
            }),
            final(self).materials_buffer.generation == old(self).materials_buffer.generation + (
            if old(scene).materials_dirty {
                1int
            } else {
                0int
            }),
            final(self).accumulation.generation == old(self).accumulation.generation + (
            if old(self).invalidated(*old(camera), *old(scene)) {
                1int
            } else {
                0int
            }),
            final(self).accumulation.size_bytes == old(self).accumulation.size_bytes,
    {
        self.uniform.time_ticks = self.uniform.time_ticks + 1;

        let moved = camera.moved;
        camera.moved = false;

        let (spheres_dirty, materials_dirty) = scene.take_and_clear_dirty();

        let invalidate = self.reset_pending || moved || spheres_dirty || materials_dirty;
        if invalidate {
            self.uniform.frames_accumulated = 1;
            self.accumulation.reset(self.uniform.width, self.uniform.height);
            self.accumulation_binding.generation = self.accumulation.generation;
        } else {
            self.uniform.frames_accumulated = self.uniform.frames_accumulated + 1;
        }
        self.reset_pending = false;

        if spheres_dirty {
            self.spheres_buffer = BufferSlot {
                generation: self.spheres_buffer.generation + 1,
                len: scene.spheres().len(),
            };
        }
        if materials_dirty {
            self.materials_buffer = BufferSlot {
                generation: self.materials_buffer.generation + 1,
                len: scene.materials().len(),
            };
        }
        self.rebuild_scene_binding_if(spheres_dirty || materials_dirty);

        FrameActions {
            realloc_spheres: spheres_dirty,
            realloc_materials: materials_dirty,
            rebuild_scene_binding: spheres_dirty || materials_dirty,
            realloc_accumulation: invalidate,
            rebuild_accumulation_binding: invalidate,
        }
    }
}

/// Resetting the accumulation twice in a row leaves the same state as
/// resetting once — the frame counter is 1 both times, the latch and
/// the buffer size agree; only the allocation generation advances,
/// which stands for the second fresh allocation the second reset
/// deliberately makes.
pub proof fn lemma_reset_idempotent(e: RenderEngine)
    ensures
        e.accumulation_reset_spec().uniform.frames_accumulated == 1,
        e.accumulation_reset_spec().accumulation_reset_spec().uniform
            == e.accumulation_reset_spec().uniform,
        e.accumulation_reset_spec().accumulation_reset_spec().reset_pending
            == e.accumulation_reset_spec().reset_pending,
        e.accumulation_reset_spec().accumulation_reset_spec().accumulation.size_bytes
            == e.accumulation_reset_spec().accumulation.size_bytes,
{
}

/// While nothing invalidates the accumulated image, each
/// reconciliation advances the accumulation counter by exactly one:
/// the counter strictly increases frame over frame.
pub proof fn lemma_quiet_frame_increments(e: RenderEngine, camera: Camera, scene: Scene)
    requires
        !e.invalidated(camera, scene),
    ensures
        e.next_frames(camera, scene) == e.uniform.frames_accumulated + 1,
        e.next_frames(camera, scene) > e.uniform.frames_accumulated,
{
}

/// Invalidation completeness: a latched reset (set by a resize, an
/// accumulate flip, or an explicit reset), a camera move, and each
/// kind of structural scene change independently drive the
/// accumulation counter back to 1 at the very next reconciliation; and
/// when several triggers fire in the same frame the reset is ORed, not
/// counted — the counter still lands exactly on 1.
pub proof fn lemma_invalidation_complete(e: RenderEngine, camera: Camera, scene: Scene)
    ensures
        e.reset_pending ==> e.next_frames(camera, scene) == 1,
        camera.moved ==> e.next_frames(camera, scene) == 1,
        scene.spheres_dirty ==> e.next_frames(camera, scene) == 1,
        scene.materials_dirty ==> e.next_frames(camera, scene) == 1,
        e.accumulation_reset_spec().next_frames(camera, scene) == 1,
        e.invalidated(camera, scene) ==> e.next_frames(camera, scene) == 1,
{
}

} // verus!
