//! Per-frame motion decisions.
//!
//! The motion controller's floating-point work — camera-relative vector math,
//! the smoothed facing angle and the sine-shaped jump arc — lives with the
//! render loop. Everything the controller *decides*, though, is a function of
//! a handful of per-frame facts (is the move vector nonzero, is the jump key
//! down, has the jump-phase timer run out, has it crossed the landing
//! threshold, is the emote key down), and that decision logic is verified
//! here: which animation the state machine is told to play, and which
//! vertical step the integrator must take.

use vstd::prelude::*;

use crate::animator::AnimState;
use crate::animator::CrabAnimation;
use crate::animator::CrabAnimator;
use crate::animator::FrameCounts;
use crate::animator::advance_spec;
use crate::animator::change_spec;
use crate::animator::jump_spec;
use crate::animator::land_spec;

verus! {

/// Raw directional input, one axis component per key:
/// `z` is forward/back, `x` is right/left, `y` is the jump key.
pub struct InputDir {
    pub x: i32,
    pub y: i32,
    pub z: i32,
}

/// Combines the held directional keys into axis values in `{-1, 0, 1}`.
/// Opposite keys held together cancel out.
pub fn get_input_dir(up: bool, down: bool, right: bool, left: bool, space: bool) -> (dir:
    InputDir)
    ensures
        dir.z == (if up { 1int } else { 0int }) - (if down { 1int } else { 0int }),
        dir.x == (if right { 1int } else { 0int }) - (if left { 1int } else { 0int }),
        dir.y == (if space { 1int } else { 0int }),
{
    let mut dir = InputDir { x: 0, y: 0, z: 0 };
    if up {
        dir.z = dir.z + 1;
    }
    if down {
        dir.z = dir.z - 1;
    }
    if right {
        dir.x = dir.x + 1;
    }
    if left {
        dir.x = dir.x - 1;
    }
    if space {
        dir.y = dir.y + 1;
    }
    dir
}

/// What the vertical integrator must do this frame.
#[derive(Debug, Clone, Copy, PartialEq, Eq, Structural)]
pub enum VerticalStep {
    /// A jump begins: set the phase timer to pi, then integrate the arc.
    StartJump,
    /// Mid-jump: keep integrating the arc.
    Airborne,
    /// On the ground: vertical position is exactly 0.
    Grounded,
}

/// The animation state after one whole frame, given the state after the
/// playback step and the per-frame facts. Order within the frame: playback
/// advances first, then the jump trigger, then the grounded/airborne
/// branch, then the emote trigger.
pub open spec fn frame_transition(
    counts: FrameCounts,
    s: AnimState,
    moving: bool,
    jump_key: bool,
    grounded: bool,
    landing_soon: bool,
    emote_key: bool,
) -> AnimState {
    let advanced = advance_spec(counts, s);
    let jumped = if jump_key && grounded {
        jump_spec(advanced)
    } else {
        advanced
    };
    let stepped = if !grounded || jump_key {
        if landing_soon {
            land_spec(jumped)
        } else {
            jumped
        }
    } else {
        if moving {
            change_spec(jumped, CrabAnimation::MoveFront)
        } else if jumped.current != CrabAnimation::LandJump && jumped.current
            != CrabAnimation::Emote {
            change_spec(jumped, CrabAnimation::Idle)
        } else {
            jumped
        }
    };
    if stepped.current == CrabAnimation::Idle && emote_key {
        change_spec(stepped, CrabAnimation::Emote)
    } else {
        stepped
    }
}

/// One frame of motion decisions, applied to the animation state machine.
///
/// The caller supplies the per-frame facts it measured:
/// - `moving`: the camera-relative move vector is nonzero;
/// - `jump_key`: the jump key is held;
/// - `grounded`: the jump-phase timer was `<= 0` at frame start;
/// - `landing_soon`: the timer, after this frame's decrement, is within
///   three integration steps of zero (only read while airborne);
/// - `emote_key`: the emote key is held.
///
/// Playback advances first, then the gameplay triggers fire in the frame's
/// fixed order. The returned [`VerticalStep`] tells the caller how to move
/// the character vertically: it starts the arc exactly when the jump key is
/// held on the ground, stays airborne while the timer is positive, and
/// grounds the character otherwise.
pub fn update_crab_animation(
    animator: &mut CrabAnimator,
    moving: bool,
    jump_key: bool,
    grounded: bool,
    landing_soon: bool,
    emote_key: bool,
) -> (step: VerticalStep)
    requires
        old(animator).wf(),
    ensures
        final(animator).wf(),
        final(animator).frame_counts == old(animator).frame_counts,
        final(animator)@ == frame_transition(
            old(animator).frame_counts,
            old(animator)@,
            moving,
            jump_key,
            grounded,
            landing_soon,
            emote_key,
        ),
        step == VerticalStep::StartJump <==> jump_key && grounded,
        step == VerticalStep::Airborne <==> !grounded,
        step == VerticalStep::Grounded <==> grounded && !jump_key,
{
    animator.handle_animation();

    let step: VerticalStep;
    if jump_key && grounded {
        animator.jump();
        step = VerticalStep::StartJump;
    } else if !grounded {
        step = VerticalStep::Airborne;
    } else {
        step = VerticalStep::Grounded;
    }

    if !grounded || jump_key {
        if landing_soon {
            animator.land();
        }
    } else {
        if moving {
            animator.change_animation(CrabAnimation::MoveFront);
        } else if !matches!(
            animator.current,
            CrabAnimation::LandJump | CrabAnimation::Emote
        ) {
            animator.change_animation(CrabAnimation::Idle);
        }
    }

    if animator.current == CrabAnimation::Idle && emote_key {
        animator.change_animation(CrabAnimation::Emote);
    }

    step
}

} // verus!
