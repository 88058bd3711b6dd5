//! First-person camera orientation state.
//!
//! Angles are kept as fixed-point integers — thousandths of a degree —
//! so that the clamping arithmetic is exact.  The trigonometric work
//! (deriving the forward vector and the view/projection matrices) is
//! floating-point and is done by the rendering collaborator from the
//! angles held here.

use vstd::prelude::*;

verus! {

/// One degree in the fixed-point angle unit used by the camera
/// (thousandths of a degree).
pub const DEGREE: i64 = 1000;

/// The pitch bound: 89 degrees, in thousandths of a degree.  Pitch is
/// clamped to [-PITCH_LIMIT, PITCH_LIMIT] to avoid gimbal flip at the
/// vertical axis.
pub const PITCH_LIMIT: i64 = 89 * DEGREE;

/// The pitch value `p` clamped to the legal range.
pub open spec fn clamped_pitch(p: int) -> int {
    if p < -PITCH_LIMIT {
        -PITCH_LIMIT as int
    } else if p > PITCH_LIMIT {
        PITCH_LIMIT as int
    } else {
        p
    }
}

/// The camera orientation: yaw and pitch in thousandths of a degree,
/// and a flag recording whether the camera has moved since the flag
/// was last cleared by the accumulation engine.
///
/// The camera position is a floating-point vector owned by the
/// rendering collaborator; only the decisions that depend on it — the
/// movement-intent arithmetic and the `moved` flag — live here.
#[derive(Clone, Copy, Debug)]
pub struct Camera {
    /// Rotation about the vertical axis, in thousandths of a degree.
    pub yaw: i64,
    /// Rotation about the horizontal axis, in thousandths of a degree,
    /// always within [-PITCH_LIMIT, PITCH_LIMIT].
    pub pitch: i64,
    /// Whether the camera has moved since the last frame.
    pub moved: bool,
}

/// Which movement keys are held for one movement step.
#[derive(Clone, Copy, Debug)]
pub struct MoveKeys {
    pub forward: bool,
    pub back: bool,
    pub right: bool,
    pub left: bool,
    pub up: bool,
    pub down: bool,
}

/// The signed coefficient an opposing key pair contributes to the
/// movement vector: +1, -1, or 0 when the keys cancel.
pub open spec fn key_axis(pos: bool, neg: bool) -> int {
    if pos == neg {
        0
    } else if pos {
        1
    } else {
        -1
    }
}

/// A movement intent: the coefficients of the camera's forward, right
/// and world-up basis vectors in the requested displacement.
///
/// The displacement itself is floating-point work done by the
/// collaborator; with pitch clamped strictly inside the vertical, the
/// three basis vectors are linearly independent, so the displacement
/// is non-zero exactly when the intent is.
#[derive(Clone, Copy, Debug, PartialEq, Eq, Structural)]
pub struct MoveIntent {
    pub forward: i8,
    pub right: i8,
    pub up: i8,
}

impl MoveIntent {
    /// True when no basis vector is requested at all.
    pub open spec fn is_zero(self) -> bool {
        self.forward == 0 && self.right == 0 && self.up == 0
    }

    /// Derives the movement intent from the held keys: opposing keys
    /// cancel, otherwise each pair contributes a unit coefficient.
    pub fn from_keys(keys: MoveKeys) -> (m: MoveIntent)
        ensures
            m.forward == key_axis(keys.forward, keys.back),
            m.right == key_axis(keys.right, keys.left),
            m.up == key_axis(keys.up, keys.down),
            m.is_zero() <==> (keys.forward == keys.back && keys.right == keys.left
                && keys.up == keys.down),
    {
        MoveIntent {
            forward: axis(keys.forward, keys.back),
            right: axis(keys.right, keys.left),
            up: axis(keys.up, keys.down),
        }
    }
}

fn axis(pos: bool, neg: bool) -> (r: i8)
    ensures
        r == key_axis(pos, neg),
{
    if pos == neg {
        0
    } else if pos {
        1
    } else {
        -1
    }
}

fn clamp_pitch(p: i64) -> (r: i64)
    ensures
        r == clamped_pitch(p as int),
{
    if p < -PITCH_LIMIT {
        -PITCH_LIMIT
    } else if p > PITCH_LIMIT {
        PITCH_LIMIT
    } else {
        p
    }
}

impl Camera {
    /// The camera invariant: pitch never leaves the clamped range.
    pub open spec fn wf(self) -> bool {
        -PITCH_LIMIT <= self.pitch <= PITCH_LIMIT
    }

    /// Creates a camera at the given orientation with the moved flag
    /// clear.  A pitch outside the legal range is clamped into it.
    pub fn new(yaw: i64, pitch: i64) -> (cam: Camera)
        ensures
            cam.wf(),
            cam.yaw == yaw,
            cam.pitch == clamped_pitch(pitch as int),
            !cam.moved,
    {
        Camera { yaw, pitch: clamp_pitch(pitch), moved: false }
    }

    /// Applies one look delta (in thousandths of a degree): the yaw
    /// turns freely, the pitch is clamped to [-PITCH_LIMIT,
    /// PITCH_LIMIT], and the camera counts as moved exactly when the
    /// delta was non-zero.
    pub fn apply_look_delta(&mut self, dx: i32, dy: i32)
        requires
            old(self).wf(),
            i64::MIN <= old(self).yaw + dx <= i64::MAX,
        ensures
            final(self).wf(),
            final(self).yaw == old(self).yaw + dx,
            final(self).pitch == clamped_pitch(old(self).pitch - dy),
            final(self).moved == (old(self).moved || dx != 0 || dy != 0),
    {
        self.yaw = self.yaw + dx as i64;
        self.pitch = clamp_pitch(self.pitch - dy as i64);
        if dx != 0 || dy != 0 {
            self.moved = true;
        }
    }

    /// Records one movement step: the orientation is untouched and the
    /// camera counts as moved exactly when the intent requests any
    /// displacement.  The position update itself is floating-point
    /// work left to the collaborator.
    pub fn apply_move(&mut self, intent: MoveIntent)
        requires
            old(self).wf(),
        ensures
            final(self).wf(),
            final(self).yaw == old(self).yaw,
            final(self).pitch == old(self).pitch,
            final(self).moved == (old(self).moved || !intent.is_zero()),
    {
        if intent.forward != 0 || intent.right != 0 || intent.up != 0 {
            self.moved = true;
        }
    }
}

/// The clamp always lands inside the legal pitch range: after any look
/// delta the pitch is within [-PITCH_LIMIT, PITCH_LIMIT].
pub proof fn lemma_pitch_always_clamped(p: int)
    ensures
        -PITCH_LIMIT <= clamped_pitch(p) <= PITCH_LIMIT,
{
}

} // verus!
