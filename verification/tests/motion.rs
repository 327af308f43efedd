use crab::animator::CrabAnimation;
use crab::animator::CrabAnimator;
use crab::animator::FrameCounts;
use crab::motion::VerticalStep;
use crab::motion::get_input_dir;
use crab::motion::update_crab_animation;

fn counts() -> FrameCounts {
    FrameCounts { emote: 3, idle: 10, idle_jump: 4, land_jump: 5, move_front: 6, pre_jump: 2 }
}

#[test]
fn input_dir_single_keys() {
    let d = get_input_dir(true, false, false, false, false);
    assert_eq!((d.x, d.y, d.z), (0, 0, 1));
    let d = get_input_dir(false, true, false, false, false);
    assert_eq!((d.x, d.y, d.z), (0, 0, -1));
    let d = get_input_dir(false, false, true, false, false);
    assert_eq!((d.x, d.y, d.z), (1, 0, 0));
    let d = get_input_dir(false, false, false, true, false);
    assert_eq!((d.x, d.y, d.z), (-1, 0, 0));
    let d = get_input_dir(false, false, false, false, true);
    assert_eq!((d.x, d.y, d.z), (0, 1, 0));
}

#[test]
fn input_dir_opposite_keys_cancel() {
    let d = get_input_dir(true, true, true, true, false);
    assert_eq!((d.x, d.y, d.z), (0, 0, 0));
    let d = get_input_dir(true, false, false, true, true);
    assert_eq!((d.x, d.y, d.z), (-1, 1, 1));
}

#[test]
fn moving_frame_cuts_to_move_front() {
    // Spawn idle; one frame with a nonzero move vector and a spent jump
    // timer cuts to MoveFront and keeps the crab grounded.
    let mut a = CrabAnimator::new(counts());
    let step = update_crab_animation(&mut a, true, false, true, false, false);
    assert_eq!(step, VerticalStep::Grounded);
    assert_eq!(a.current, CrabAnimation::MoveFront);
    assert_eq!(a.anim_frame_counter, 0);

    // Further moving frames keep the clip playing rather than restart it.
    let step = update_crab_animation(&mut a, true, false, true, false, false);
    assert_eq!(step, VerticalStep::Grounded);
    assert_eq!(a.current, CrabAnimation::MoveFront);
    assert_eq!(a.anim_frame_counter, 1);
}

#[test]
fn zero_input_frame_returns_to_idle() {
    let mut a = CrabAnimator::new(counts());
    a.change_animation(CrabAnimation::MoveFront);
    let step = update_crab_animation(&mut a, false, false, true, false, false);
    assert_eq!(step, VerticalStep::Grounded);
    assert_eq!(a.current, CrabAnimation::Idle);
    assert_eq!(a.anim_frame_counter, 0);
}

#[test]
fn zero_input_frame_spares_landing_and_emote() {
    // A still-playing LandJump clip is not interrupted by the idle cut.
    let mut a = CrabAnimator::new(counts());
    a.land();
    let step = update_crab_animation(&mut a, false, false, true, false, false);
    assert_eq!(step, VerticalStep::Grounded);
    assert_eq!(a.current, CrabAnimation::LandJump);
    assert_eq!(a.anim_frame_counter, 1);

    // Same for a still-playing Emote clip.
    let mut b = CrabAnimator::new(counts());
    b.change_animation(CrabAnimation::Emote);
    let step = update_crab_animation(&mut b, false, false, true, false, false);
    assert_eq!(step, VerticalStep::Grounded);
    assert_eq!(b.current, CrabAnimation::Emote);
    assert_eq!(b.anim_frame_counter, 1);
}

#[test]
fn jump_key_on_ground_starts_jump() {
    let mut a = CrabAnimator::new(counts());
    let step = update_crab_animation(&mut a, false, true, true, false, false);
    assert_eq!(step, VerticalStep::StartJump);
    assert_eq!(a.current, CrabAnimation::PreJump);
    assert_eq!(a.anim_frame_counter, 0);
}

#[test]
fn jump_key_mid_air_does_not_restart() {
    let mut a = CrabAnimator::new(counts());
    update_crab_animation(&mut a, false, true, true, false, false);
    // Airborne now; a held jump key neither restarts the jump nor the clip.
    let step = update_crab_animation(&mut a, false, true, false, false, false);
    assert_eq!(step, VerticalStep::Airborne);
    assert_eq!(a.current, CrabAnimation::PreJump);
    assert_eq!(a.anim_frame_counter, 1);
}

#[test]
fn emote_key_while_idle_starts_emote() {
    let mut a = CrabAnimator::new(counts());
    let step = update_crab_animation(&mut a, false, false, true, false, true);
    assert_eq!(step, VerticalStep::Grounded);
    assert_eq!(a.current, CrabAnimation::Emote);
    assert_eq!(a.anim_frame_counter, 0);
}

#[test]
fn emote_key_while_moving_is_ignored() {
    let mut a = CrabAnimator::new(counts());
    let step = update_crab_animation(&mut a, true, false, true, false, true);
    assert_eq!(step, VerticalStep::Grounded);
    assert_eq!(a.current, CrabAnimation::MoveFront);
}

#[test]
fn emote_restarts_right_after_completing() {
    // Emote completes into Idle during the playback step; a held emote key
    // then cuts straight back to Emote within the same frame.
    let mut a = CrabAnimator::new(counts());
    a.change_animation(CrabAnimation::Emote);
    update_crab_animation(&mut a, false, false, true, false, false);
    update_crab_animation(&mut a, false, false, true, false, false);
    assert_eq!(a.current, CrabAnimation::Emote);
    assert_eq!(a.anim_frame_counter, 2);
    let step = update_crab_animation(&mut a, false, false, true, false, true);
    assert_eq!(step, VerticalStep::Grounded);
    assert_eq!(a.current, CrabAnimation::Emote);
    assert_eq!(a.anim_frame_counter, 0);
}

#[test]
fn jump_arc_lands_exactly_once() {
    // Drive a whole jump the way the frame loop does: fixed delta time,
    // phase timer set to pi at take-off, decremented each frame, vertical
    // offset sin(max(timer, 0)) * jump height, landing requested once the
    // timer is within three integration steps of zero.
    let counts = counts();
    let mut a = CrabAnimator::new(counts);
    let dt: f32 = 1.0 / 60.0;
    let jump_speed: f32 = 4.0;
    let jump_high: f32 = 2.0;
    let mut timer: f32 = 0.0;
    let mut y: f32 = 0.0;
    let mut landings = 0;

    for frame in 0..90 {
        let space = frame == 0;
        let grounded = timer <= 0.0;
        let airborne = (space && grounded) || !grounded;
        let landing_soon = if airborne {
            let t0 = if space && grounded { std::f32::consts::PI } else { timer };
            t0 - dt * jump_speed <= 3.0 * dt * jump_speed
        } else {
            false
        };

        let was = a.current;
        let step = update_crab_animation(&mut a, false, space, grounded, landing_soon, false);
        if was != CrabAnimation::LandJump && a.current == CrabAnimation::LandJump {
            landings += 1;
        }

        match step {
            VerticalStep::StartJump => {
                timer = std::f32::consts::PI;
                timer -= dt * jump_speed;
                y = timer.max(0.0).sin() * jump_high;
            }
            VerticalStep::Airborne => {
                timer -= dt * jump_speed;
                y = timer.max(0.0).sin() * jump_high;
            }
            VerticalStep::Grounded => {
                y = 0.0;
            }
        }

        assert!(y >= 0.0);
        if timer > 0.0 {
            // Mid-arc: strictly above ground, at sin(timer) * jump height.
            assert_eq!(y, timer.sin() * jump_high);
            assert!(y > 0.0);
        } else {
            // Once the timer is spent the crab sits exactly on the ground.
            assert_eq!(y, 0.0);
        }
    }

    // The landing clip was entered exactly once over the whole jump, and
    // the crab ended grounded and idle.
    assert_eq!(landings, 1);
    assert!(timer <= 0.0);
    assert_eq!(a.current, CrabAnimation::Idle);
}
