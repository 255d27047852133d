//! Turns one frame's input sample into at most one camera manipulation.

use vstd::prelude::*;

verus! {

/// A two-dimensional motion, in millionths of a pixel (or of a scroll step).
#[derive(Clone, Copy, Debug, PartialEq, Eq, Structural)]
pub struct Motion {
    pub x: i64,
    pub y: i64,
}

/// What the user asked the camera to do this frame.
///
/// `Pan` and `Rotate` are recognized but move nothing yet: their effect is
/// an open design question, so they stay visible as explicit variants.
#[derive(Clone, Copy, Debug, PartialEq, Eq, Structural)]
pub enum CameraManipulation {
    Pan(Motion),
    Orbit(Motion),
    Rotate(Motion),
    /// The vertical scroll amount.
    Zoom(i64),
}

/// The input state of one frame: the latest cursor motion, the latest
/// vertical scroll amount, and the keys and buttons held down.
#[derive(Clone, Copy, Debug, PartialEq, Eq, Structural)]
pub struct InputSnapshot {
    pub motion: Motion,
    pub scroll_y: i64,
    pub alt: bool,
    pub shift: bool,
    pub left_button: bool,
    pub middle_button: bool,
    pub right_button: bool,
}

/// The manipulation a frame asks for; the first rule that matches wins.
pub open spec fn manipulation_of(i: InputSnapshot) -> Option<CameraManipulation> {
    if i.alt && i.middle_button {
        Some(CameraManipulation::Pan(i.motion))
    } else if i.shift && i.middle_button {
        Some(CameraManipulation::Rotate(i.motion))
    } else if i.middle_button {
        Some(CameraManipulation::Orbit(i.motion))
    } else if i.scroll_y != 0 {
        Some(CameraManipulation::Zoom(i.scroll_y))
    } else {
        None
    }
}

/// Chooses the single manipulation that `input` asks for, if any.
pub fn classify(input: &InputSnapshot) -> (r: Option<CameraManipulation>)
    ensures
        r == manipulation_of(*input),
{
    if input.alt && input.middle_button {
        Some(CameraManipulation::Pan(input.motion))
    } else if input.shift && input.middle_button {
        Some(CameraManipulation::Rotate(input.motion))
    } else if input.middle_button {
        Some(CameraManipulation::Orbit(input.motion))
    } else if input.scroll_y != 0 {
        Some(CameraManipulation::Zoom(input.scroll_y))
    } else {
        None
    }
}

} // verus!
