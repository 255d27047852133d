//! The orbit camera: pitch, yaw and distance around a pivot, with clamps.

use vstd::prelude::*;

use crate::fixed::{clamp_i128, clamp_to, fx_mul, fx_product, saturate_i64};
use crate::input::{classify, manipulation_of, CameraManipulation, InputSnapshot};

verus! {

/// The smallest pitch, one degree, in microradians.
pub const MIN_PITCH: i64 = 17_453;

/// The largest pitch, 179 degrees, in microradians.
pub const MAX_PITCH: i64 = 3_124_139;

/// Half a turn (pi) in microradians: a pitch of zero or of this value points
/// the camera straight along the vertical axis.
pub const HALF_TURN: i64 = 3_141_593;

/// The smallest distance from the pivot, in millionths of a world unit.
pub const MIN_DISTANCE: i64 = 5_000_000;

/// The largest distance from the pivot, in millionths of a world unit.
pub const MAX_DISTANCE: i64 = 30_000_000;

/// World units of zoom per scroll step and second (50.0).
pub const ZOOM_SCALE: i64 = 50_000_000;

/// Radians of pitch per pixel and second (1.0).
pub const LOOK_SCALE: i64 = 1_000_000;

/// The distance a new camera starts at (20.0).
pub const DEFAULT_DISTANCE: i64 = 20_000_000;

/// The pitch a new camera starts at, 30 degrees, in microradians.
pub const DEFAULT_PITCH: i64 = 523_599;

/// The state of a camera orbiting a pivot.
///
/// Angles are in microradians, the distance in millionths of a world unit.
/// The camera and the light whose poses this state drives are referred to by
/// identifier; their lifetime belongs to the host.
#[derive(Clone, Copy, Debug, PartialEq, Eq, Structural)]
pub struct OrbitCamera {
    pub cam_distance: i64,
    pub cam_pitch: i64,
    pub cam_yaw: i64,
    pub cam_entity: Option<u64>,
    pub light_entity: Option<u64>,
    pub camera_manipulation: Option<CameraManipulation>,
}

/// The yaw after `m` has acted for `dt` microseconds.
pub open spec fn moved_yaw(yaw: int, m: Option<CameraManipulation>, dt: int) -> int {
    match m {
        Some(CameraManipulation::Orbit(d)) => saturate_i64(yaw + fx_product(d.x as int, dt)),
        _ => yaw,
    }
}

/// The pitch after `m` has acted for `dt` microseconds, before clamping.
pub open spec fn moved_pitch(pitch: int, m: Option<CameraManipulation>, dt: int) -> int {
    match m {
        Some(CameraManipulation::Orbit(d)) => pitch - fx_product(
            fx_product(d.y as int, dt),
            LOOK_SCALE as int,
        ),
        _ => pitch,
    }
}

/// The distance after `m` has acted for `dt` microseconds, before clamping.
pub open spec fn moved_distance(distance: int, m: Option<CameraManipulation>, dt: int) -> int {
    match m {
        Some(CameraManipulation::Zoom(s)) => distance - fx_product(
            fx_product(s as int, dt),
            ZOOM_SCALE as int,
        ),
        _ => distance,
    }
}

/// The pitch limited to `[MIN_PITCH, MAX_PITCH]`.
pub open spec fn clamped_pitch(pitch: int) -> int {
    clamp_to(pitch, MIN_PITCH as int, MAX_PITCH as int)
}

/// The distance limited to `[MIN_DISTANCE, MAX_DISTANCE]`.
pub open spec fn clamped_distance(distance: int) -> int {
    clamp_to(distance, MIN_DISTANCE as int, MAX_DISTANCE as int)
}

/// The camera after one frame in which `m` acted for `dt` microseconds,
/// followed by the clamps.
pub open spec fn stepped(c: OrbitCamera, m: Option<CameraManipulation>, dt: int) -> OrbitCamera {
    OrbitCamera {
        cam_yaw: moved_yaw(c.cam_yaw as int, m, dt) as i64,
        cam_pitch: clamped_pitch(moved_pitch(c.cam_pitch as int, m, dt)) as i64,
        cam_distance: clamped_distance(moved_distance(c.cam_distance as int, m, dt)) as i64,
        ..c
    }
}

/// What the host writes back after a frame: the pivot turns about the vertical
/// axis by minus `yaw`; the camera, if one is bound, sits at `pitch` from the
/// vertical axis and `distance` from the pivot, facing it; the light, if one
/// is bound and so is a camera, follows the camera's yaw.
#[derive(Clone, Copy, Debug, PartialEq, Eq, Structural)]
pub struct PoseUpdate {
    pub yaw: i64,
    pub pitch: i64,
    pub distance: i64,
    pub camera: Option<u64>,
    pub light: Option<u64>,
}

impl Default for OrbitCamera {
    /// A camera 20 units from the pivot, pitched 30 degrees, bound to nothing.
    fn default() -> (r: Self)
        ensures
            r == (OrbitCamera {
                cam_distance: DEFAULT_DISTANCE,
                cam_pitch: DEFAULT_PITCH,
                cam_yaw: 0,
                cam_entity: None,
                light_entity: None,
                camera_manipulation: None,
            }),
            r.wf(),
    {
        OrbitCamera {
            cam_distance: DEFAULT_DISTANCE,
            cam_pitch: DEFAULT_PITCH,
            cam_yaw: 0,
            cam_entity: None,
            light_entity: None,
            camera_manipulation: None,
        }
    }
}

impl OrbitCamera {
    /// Pitch and distance lie within their clamps.
    pub open spec fn wf(&self) -> bool {
        &&& MIN_PITCH <= self.cam_pitch <= MAX_PITCH
        &&& MIN_DISTANCE <= self.cam_distance <= MAX_DISTANCE
    }

    /// Applies `m` for `dt` microseconds, then clamps pitch and distance.
    /// Yaw has no bound of its own and saturates only at the limits of `i64`.
    /// `Pan`, `Rotate` and no manipulation leave the angles and the distance
    /// as they were, clamps aside.
    pub fn update(&mut self, m: Option<CameraManipulation>, dt: u32)
        ensures
            *final(self) == stepped(*old(self), m, dt as int),
            final(self).wf(),
    {
        let dt = dt as i128;
        match m {
            Some(CameraManipulation::Orbit(d)) => {
                let yaw = self.cam_yaw as i128 + fx_mul(d.x as i128, dt);
                self.cam_yaw = clamp_i128(yaw, i64::MIN as i128, i64::MAX as i128) as i64;
                let turn = fx_mul(fx_mul(d.y as i128, dt), LOOK_SCALE as i128);
                let pitch = self.cam_pitch as i128 - turn;
                self.cam_pitch = clamp_i128(pitch, MIN_PITCH as i128, MAX_PITCH as i128) as i64;
                self.clamp_pose();
            },
            Some(CameraManipulation::Zoom(s)) => {
                let zoom = fx_mul(fx_mul(s as i128, dt), ZOOM_SCALE as i128);
                let distance = self.cam_distance as i128 - zoom;
                self.cam_distance = clamp_i128(
                    distance,
                    MIN_DISTANCE as i128,
                    MAX_DISTANCE as i128,
                ) as i64;
                self.clamp_pose();
            },
            _ => {
                self.clamp_pose();
            },
        }
    }

    /// Reads one frame's input, applies the manipulation it asks for over
    /// `dt` microseconds, and records that manipulation.
    pub fn process_user_input(&mut self, input: &InputSnapshot, dt: u32)
        ensures
            *final(self) == (OrbitCamera {
                camera_manipulation: manipulation_of(*input),
                ..stepped(*old(self), manipulation_of(*input), dt as int)
            }),
            final(self).wf(),
    {
        let m = classify(input);
        self.update(m, dt);
        self.camera_manipulation = m;
    }

    /// Clamps the pose and says what the host must write back this frame.
    /// The light is placed only when a camera is bound as well.
    pub fn update_camera(&mut self) -> (r: PoseUpdate)
        ensures
            *final(self) == (OrbitCamera {
                cam_pitch: clamped_pitch(old(self).cam_pitch as int) as i64,
                cam_distance: clamped_distance(old(self).cam_distance as int) as i64,
                ..*old(self)
            }),
            r == (PoseUpdate {
                yaw: final(self).cam_yaw,
                pitch: final(self).cam_pitch,
                distance: final(self).cam_distance,
                camera: old(self).cam_entity,
                light: if old(self).cam_entity is Some {
                    old(self).light_entity
                } else {
                    None
                },
            }),
    {
        self.clamp_pose();
        let light = match self.cam_entity {
            Some(_) => self.light_entity,
            None => None,
        };
        PoseUpdate {
            yaw: self.cam_yaw,
            pitch: self.cam_pitch,
            distance: self.cam_distance,
            camera: self.cam_entity,
            light,
        }
    }

    /// Limits pitch and distance to their ranges; values set from outside
    /// are brought back in range too.
    pub fn clamp_pose(&mut self)
        ensures
            *final(self) == (OrbitCamera {
                cam_pitch: clamped_pitch(old(self).cam_pitch as int) as i64,
                cam_distance: clamped_distance(old(self).cam_distance as int) as i64,
                ..*old(self)
            }),
            final(self).wf(),
    {
        self.cam_pitch = clamp_i128(self.cam_pitch as i128, MIN_PITCH as i128, MAX_PITCH as i128)
            as i64;
        self.cam_distance = clamp_i128(
            self.cam_distance as i128,
            MIN_DISTANCE as i128,
            MAX_DISTANCE as i128,
        ) as i64;
    }
}

/// The camera after each manipulation of `steps` in turn, each acting for
/// its time step in microseconds.
pub open spec fn run(c: OrbitCamera, steps: Seq<(Option<CameraManipulation>, u32)>) -> OrbitCamera
    decreases steps.len(),
{
    if steps.len() == 0 {
        c
    } else {
        run(stepped(c, steps[0].0, steps[0].1 as int), steps.drop_first())
    }
}

/// The manipulation moves by nothing, or there is none.
pub open spec fn is_still(m: Option<CameraManipulation>) -> bool {
    match m {
        None => true,
        Some(CameraManipulation::Pan(d)) => d.x == 0 && d.y == 0,
        Some(CameraManipulation::Orbit(d)) => d.x == 0 && d.y == 0,
        Some(CameraManipulation::Rotate(d)) => d.x == 0 && d.y == 0,
        Some(CameraManipulation::Zoom(s)) => s == 0,
    }
}

/// Whatever manipulations come, and however large, pitch and distance are
/// within their clamps after every frame, even when they started outside.
pub proof fn lemma_run_stays_in_range(
    c: OrbitCamera,
    steps: Seq<(Option<CameraManipulation>, u32)>,
)
    requires
        c.wf() || steps.len() > 0,
    ensures
        run(c, steps).wf(),
    decreases steps.len(),
{
    if steps.len() > 0 {
        lemma_run_stays_in_range(stepped(c, steps[0].0, steps[0].1 as int), steps.drop_first());
    }
}

/// A manipulation that moves by nothing, or none at all, leaves a camera
/// whose pitch and distance are in range exactly as it was.
pub proof fn lemma_still_frame_keeps_pose(c: OrbitCamera, m: Option<CameraManipulation>, dt: u32)
    requires
        c.wf(),
        is_still(m),
    ensures
        stepped(c, m, dt as int) == c,
{
}

/// The pitch never reaches a pole: after any frames it stays strictly
/// between zero and half a turn. Driving it past a clamp stops it exactly at
/// that clamp, the closest it gets to the pole.
pub proof fn lemma_pitch_avoids_poles(
    c: OrbitCamera,
    steps: Seq<(Option<CameraManipulation>, u32)>,
    m: Option<CameraManipulation>,
    dt: u32,
)
    requires
        c.wf() || steps.len() > 0,
    ensures
        0 < run(c, steps).cam_pitch < HALF_TURN,
        moved_pitch(c.cam_pitch as int, m, dt as int) <= MIN_PITCH ==> stepped(
            c,
            m,
            dt as int,
        ).cam_pitch == MIN_PITCH,
        moved_pitch(c.cam_pitch as int, m, dt as int) >= MAX_PITCH ==> stepped(
            c,
            m,
            dt as int,
        ).cam_pitch == MAX_PITCH,
{
    lemma_run_stays_in_range(c, steps);
}

} // verus!
