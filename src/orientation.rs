use vstd::prelude::*;
use crate::scroll::saturating_sum;

verus! {

/// Angles are held in thousandths of a degree.
pub const MILLIDEGREES_PER_DEGREE: i64 = 1000;

/// The largest pitch, up or down: 89 degrees.
pub const PITCH_LIMIT: i64 = 89_000;

/// The yaw and pitch of a first-person camera, in millidegrees.
///
/// Yaw accumulates every turn, bounded only by `i64` (it saturates there);
/// pitch is clamped so that the camera never looks straight up or down.
#[derive(Clone, Copy, Debug, PartialEq, Eq, Structural)]
pub struct Orientation {
    pub yaw: i64,
    pub pitch: i64,
}

/// `p` held within `[-PITCH_LIMIT, PITCH_LIMIT]`.
pub open spec fn clamp_pitch(p: int) -> int {
    if p > PITCH_LIMIT {
        PITCH_LIMIT as int
    } else if p < -PITCH_LIMIT {
        -PITCH_LIMIT as int
    } else {
        p
    }
}

impl Orientation {
    pub open spec fn wf(self) -> bool {
        -PITCH_LIMIT <= self.pitch <= PITCH_LIMIT
    }

    /// Looking down the negative Z axis: yaw -90 degrees, pitch 0.
    pub fn new() -> (r: Self)
        ensures
            r.wf(),
            r.yaw == -90_000,
            r.pitch == 0,
    {
        Orientation { yaw: -90_000, pitch: 0 }
    }

    /// Turns by `dx` in yaw and `dy` in pitch (millidegrees). The yaw is the
    /// sum, saturating at the bounds of `i64`; the pitch is clamped to
    /// `[-PITCH_LIMIT, PITCH_LIMIT]`.
    pub fn rotate(&mut self, dx: i64, dy: i64)
        requires
            old(self).wf(),
        ensures
            final(self).wf(),
            final(self).yaw == saturating_sum(old(self).yaw as int, dx as int),
            final(self).pitch == clamp_pitch(old(self).pitch + dy),
    {
        let y = self.yaw;
        self.yaw = if dx > 0 && y > i64::MAX - dx {
            i64::MAX
        } else if dx < 0 && y < i64::MIN - dx {
            i64::MIN
        } else {
            y + dx
        };

        let p: i128 = self.pitch as i128 + dy as i128;
        self.pitch = if p > PITCH_LIMIT as i128 {
            PITCH_LIMIT
        } else if p < -PITCH_LIMIT as i128 {
            -PITCH_LIMIT
        } else {
            p as i64
        };
    }
}

/// The (yaw, pitch) reached from `(yaw, pitch)` by calling `rotate` with each
/// of `steps`, in order.
pub open spec fn after_rotations(yaw: int, pitch: int, steps: Seq<(i64, i64)>) -> (int, int)
    decreases steps.len(),
{
    if steps.len() == 0 {
        (yaw, pitch)
    } else {
        let before = after_rotations(yaw, pitch, steps.drop_last());
        (saturating_sum(before.0, steps.last().0 as int), clamp_pitch(before.1 + steps.last().1))
    }
}

/// Whatever the deltas, after any sequence of rotations the pitch stays
/// within `[-PITCH_LIMIT, PITCH_LIMIT]`.
pub proof fn rotations_keep_limits(start: Orientation, steps: Seq<(i64, i64)>)
    requires
        start.wf(),
    ensures
        -PITCH_LIMIT <= after_rotations(start.yaw as int, start.pitch as int, steps).1 <= PITCH_LIMIT,
    decreases steps.len(),
{
    if steps.len() > 0 {
        rotations_keep_limits(start, steps.drop_last());
    }
}

} // verus!
