//! Proved laws of the animation state machine and the per-frame decisions.
//!
//! Each proof function here states a guarantee of the library over the spec
//! transitions that the executable operations are proved to implement, so
//! the guarantee carries over to any sequence of calls.

use vstd::prelude::*;
use vstd::arithmetic::div_mod::lemma_add_mod_noop_right;
use vstd::arithmetic::div_mod::lemma_mod_bound;
use vstd::arithmetic::div_mod::lemma_small_mod;

use crate::animator::AnimState;
use crate::animator::CrabAnimation;
use crate::animator::FrameCounts;
use crate::animator::advance_spec;
use crate::animator::change_spec;
use crate::animator::clip_len;
use crate::animator::completion_target;
use crate::animator::counts_wf;
use crate::animator::in_jump;
use crate::animator::is_one_shot;
use crate::animator::jump_spec;
use crate::animator::land_spec;
use crate::motion::frame_transition;

verus! {

/// Playback iterated `n` frames from `s`.
pub open spec fn advance_n(counts: FrameCounts, s: AnimState, n: nat) -> AnimState
    decreases n,
{
    if n == 0 {
        s
    } else {
        advance_spec(counts, advance_n(counts, s, (n - 1) as nat))
    }
}

/// A jump request while a jump is already in progress (PreJump, IdleJump or
/// LandJump) changes nothing — neither the current clip nor the frame
/// counter — so repeated requests are no-ops: the request is idempotent.
pub proof fn lemma_jump_request_idempotent(s: AnimState)
    ensures
        in_jump(s.current) ==> jump_spec(s) == s,
        jump_spec(jump_spec(s)) == jump_spec(s),
{
}

/// A land request is idempotent: once the landing clip plays, further
/// requests change nothing, so the landing threshold holding over several
/// consecutive frames cannot restart the clip.
pub proof fn lemma_land_request_idempotent(s: AnimState)
    ensures
        s.current == CrabAnimation::LandJump ==> land_spec(s) == s,
        land_spec(land_spec(s)) == land_spec(s),
{
}

/// Requesting the clip that is already playing leaves the state — in
/// particular the frame counter — unchanged.
pub proof fn lemma_change_animation_same_noop(s: AnimState, a: CrabAnimation)
    requires
        s.current == a,
    ensures
        change_spec(s, a) == s,
{
}

/// While a clip has not yet reached its end, playback only counts frames:
/// after `k` steps from frame 0 the clip is unchanged and the counter
/// reads `k`.
proof fn lemma_advance_counts_up(counts: FrameCounts, a: CrabAnimation, k: nat)
    requires
        counts_wf(counts),
        k < clip_len(counts, a),
    ensures
        advance_n(counts, AnimState { current: a, frame: 0 }, k) == (AnimState {
            current: a,
            frame: k as int,
        }),
    decreases k,
{
    let n = clip_len(counts, a);
    if k > 0 {
        lemma_advance_counts_up(counts, a, (k - 1) as nat);
        lemma_small_mod(k, n as nat);
    } else {
        lemma_small_mod(0, n as nat);
    }
}

/// A one-shot clip with `N` frames, played from frame 0, transitions to its
/// designated successor after exactly `N` playback steps, with the frame
/// counter reset to 0.
pub proof fn lemma_one_shot_clip_completes(counts: FrameCounts, a: CrabAnimation)
    requires
        counts_wf(counts),
        is_one_shot(a),
    ensures
        advance_n(counts, AnimState { current: a, frame: 0 }, clip_len(counts, a) as nat)
            == (AnimState { current: completion_target(a), frame: 0 }),
{
    let n = clip_len(counts, a);
    lemma_advance_counts_up(counts, a, (n - 1) as nat);
}

/// A looping clip never transitions by itself: after any number `k` of
/// playback steps from frame 0 it is still the current clip, and the frame
/// counter reads `k` modulo the clip's frame count.
pub proof fn lemma_looping_clip_wraps(counts: FrameCounts, a: CrabAnimation, k: nat)
    requires
        counts_wf(counts),
        !is_one_shot(a),
    ensures
        advance_n(counts, AnimState { current: a, frame: 0 }, k) == (AnimState {
            current: a,
            frame: k as int % clip_len(counts, a),
        }),
    decreases k,
{
    let n = clip_len(counts, a);
    if k == 0 {
        lemma_small_mod(0, n as nat);
    } else {
        lemma_looping_clip_wraps(counts, a, (k - 1) as nat);
        lemma_mod_bound(k - 1, n);
        lemma_add_mod_noop_right(1, k - 1, n);
    }
}

/// Zero-input stability of the animation state: a frame with no movement,
/// no jump key and a spent jump timer first advances playback; if that left
/// the landing or emote clip still playing, nothing else happens, and
/// otherwise the crab returns to Idle.
pub proof fn lemma_zero_input_goes_idle(
    counts: FrameCounts,
    s: AnimState,
    landing_soon: bool,
)
    ensures
        ({
            let advanced = advance_spec(counts, s);
            let result = frame_transition(counts, s, false, false, true, landing_soon, false);
            &&& (advanced.current == CrabAnimation::LandJump || advanced.current
                == CrabAnimation::Emote) ==> result == advanced
            &&& !(advanced.current == CrabAnimation::LandJump || advanced.current
                == CrabAnimation::Emote) ==> result.current == CrabAnimation::Idle
        }),
{
}

} // verus!
