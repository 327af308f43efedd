//! The crab's animation state machine.
//!
//! `CrabAnimator` owns the current animation identifier and the frame counter
//! inside the current clip. Each frame the external renderer samples the pose
//! at `(current, anim_frame_counter)` and then calls [`CrabAnimator::handle_animation`],
//! which advances playback: looping clips wrap their counter, one-shot clips
//! transition to their designated successor on completion.

use vstd::prelude::*;

verus! {

/// The closed set of animation clips the crab can play.
#[derive(Debug, Clone, Copy, PartialEq, Eq, Structural)]
pub enum CrabAnimation {
    Emote,
    Idle,
    IdleJump,
    LandJump,
    MoveFront,
    PreJump,
}

/// Total frame count of each clip, supplied once at load time by the
/// external animation data.
#[derive(Debug, Clone, Copy, PartialEq, Eq, Structural)]
pub struct FrameCounts {
    pub emote: i32,
    pub idle: i32,
    pub idle_jump: i32,
    pub land_jump: i32,
    pub move_front: i32,
    pub pre_jump: i32,
}

/// Every clip has at least one frame; the counter wraps modulo the count.
pub open spec fn counts_wf(counts: FrameCounts) -> bool {
    &&& counts.emote >= 1
    &&& counts.idle >= 1
    &&& counts.idle_jump >= 1
    &&& counts.land_jump >= 1
    &&& counts.move_front >= 1
    &&& counts.pre_jump >= 1
}

/// Frame count of one clip, as a mathematical integer.
pub open spec fn clip_len(counts: FrameCounts, a: CrabAnimation) -> int {
    match a {
        CrabAnimation::Emote => counts.emote as int,
        CrabAnimation::Idle => counts.idle as int,
        CrabAnimation::IdleJump => counts.idle_jump as int,
        CrabAnimation::LandJump => counts.land_jump as int,
        CrabAnimation::MoveFront => counts.move_front as int,
        CrabAnimation::PreJump => counts.pre_jump as int,
    }
}

/// A one-shot clip plays once and transitions on completion; every other
/// clip loops by wrapping its frame counter.
pub open spec fn is_one_shot(a: CrabAnimation) -> bool {
    a == CrabAnimation::PreJump || a == CrabAnimation::LandJump || a == CrabAnimation::Emote
}

/// The successor a one-shot clip transitions to when it completes.
pub open spec fn completion_target(a: CrabAnimation) -> CrabAnimation {
    match a {
        CrabAnimation::PreJump => CrabAnimation::IdleJump,
        _ => CrabAnimation::Idle,
    }
}

/// The crab is mid-jump: a jump request must not re-trigger.
pub open spec fn in_jump(a: CrabAnimation) -> bool {
    a == CrabAnimation::IdleJump || a == CrabAnimation::PreJump || a == CrabAnimation::LandJump
}

/// Mathematical state of the machine: the current clip and the frame
/// counter within it.
pub struct AnimState {
    pub current: CrabAnimation,
    pub frame: int,
}

/// The frame counter always lies inside the current clip's timeline.
pub open spec fn state_wf(counts: FrameCounts, s: AnimState) -> bool {
    0 <= s.frame < clip_len(counts, s.current)
}

/// Unconditional change request: a different clip starts at frame 0, the
/// clip already playing is left alone (restarting it would visibly pop).
pub open spec fn change_spec(s: AnimState, a: CrabAnimation) -> AnimState {
    if s.current == a {
        s
    } else {
        AnimState { current: a, frame: 0 }
    }
}

/// Jump trigger: ignored while already mid-jump, otherwise cuts to PreJump.
pub open spec fn jump_spec(s: AnimState) -> AnimState {
    if in_jump(s.current) {
        s
    } else {
        change_spec(s, CrabAnimation::PreJump)
    }
}

/// Land trigger: cuts to LandJump unless it is already playing.
pub open spec fn land_spec(s: AnimState) -> AnimState {
    if s.current == CrabAnimation::LandJump {
        s
    } else {
        change_spec(s, CrabAnimation::LandJump)
    }
}

/// One playback step: the counter increments; a one-shot clip that has
/// reached its frame count transitions to its successor, every other clip
/// wraps the counter modulo its frame count.
pub open spec fn advance_spec(counts: FrameCounts, s: AnimState) -> AnimState {
    let n = clip_len(counts, s.current);
    if is_one_shot(s.current) && s.frame + 1 >= n {
        AnimState { current: completion_target(s.current), frame: 0 }
    } else {
        AnimState { current: s.current, frame: (s.frame + 1) % n }
    }
}

/// The animation state machine: current clip, frame counter, and the
/// immutable per-clip frame-count table.
pub struct CrabAnimator {
    pub current: CrabAnimation,
    pub anim_frame_counter: i32,
    pub frame_counts: FrameCounts,
}

impl View for CrabAnimator {
    type V = AnimState;

    open spec fn view(&self) -> AnimState {
        AnimState { current: self.current, frame: self.anim_frame_counter as int }
    }
}

impl CrabAnimator {
    /// The table is valid and the counter lies within the current clip.
    pub open spec fn wf(self) -> bool {
        &&& counts_wf(self.frame_counts)
        &&& state_wf(self.frame_counts, self@)
    }

    /// A freshly spawned crab idles from the first frame.
    pub fn new(frame_counts: FrameCounts) -> (r: Self)
        requires
            counts_wf(frame_counts),
        ensures
            r.wf(),
            r.frame_counts == frame_counts,
            r@ == (AnimState { current: CrabAnimation::Idle, frame: 0 }),
    {
        CrabAnimator { current: CrabAnimation::Idle, anim_frame_counter: 0, frame_counts }
    }

    /// Frame count of one clip, read from the table.
    pub fn frame_count(&self, a: CrabAnimation) -> (n: i32)
        ensures
            n as int == clip_len(self.frame_counts, a),
    {
        match a {
            CrabAnimation::Emote => self.frame_counts.emote,
            CrabAnimation::Idle => self.frame_counts.idle,
            CrabAnimation::IdleJump => self.frame_counts.idle_jump,
            CrabAnimation::LandJump => self.frame_counts.land_jump,
            CrabAnimation::MoveFront => self.frame_counts.move_front,
            CrabAnimation::PreJump => self.frame_counts.pre_jump,
        }
    }

    /// Requests `animation`; a request for the clip already playing is a
    /// no-op, anything else cuts hard to frame 0 of the new clip.
    ///
    /// The counter may transiently sit one past the end of the current clip
    /// here: playback calls this at the completion check, before wrapping.
    pub fn change_animation(&mut self, animation: CrabAnimation)
        requires
            counts_wf(old(self).frame_counts),
            old(self).anim_frame_counter >= 0,
        ensures
            final(self).frame_counts == old(self).frame_counts,
            final(self)@ == change_spec(old(self)@, animation),
            old(self).wf() ==> final(self).wf(),
            old(self)@.current != animation ==> final(self).wf(),
    {
        if self.current != animation {
            self.current = animation;
            self.anim_frame_counter = 0;
        }
    }

    /// Requests the jump take-off clip; ignored while a jump is already in
    /// progress, so a held key cannot restart the jump mid-air.
    pub fn jump(&mut self)
        requires
            old(self).wf(),
        ensures
            final(self).wf(),
            final(self).frame_counts == old(self).frame_counts,
            final(self)@ == jump_spec(old(self)@),
    {
        if !matches!(
            self.current,
            CrabAnimation::IdleJump | CrabAnimation::PreJump | CrabAnimation::LandJump
        ) {
            self.change_animation(CrabAnimation::PreJump);
        }
    }

    /// Requests the landing clip; idempotent, so the landing threshold
    /// firing on several consecutive frames does not restart the clip.
    pub fn land(&mut self)
        requires
            old(self).wf(),
        ensures
            final(self).wf(),
            final(self).frame_counts == old(self).frame_counts,
            final(self)@ == land_spec(old(self)@),
    {
        if self.current != CrabAnimation::LandJump {
            self.change_animation(CrabAnimation::LandJump);
        }
    }

    /// Advances playback by one frame, after the renderer has sampled the
    /// pose at the current counter: increments the counter, transitions a
    /// completed one-shot clip to its successor, and wraps a looping clip.
    pub fn handle_animation(&mut self)
        requires
            old(self).wf(),
        ensures
            final(self).wf(),
            final(self).frame_counts == old(self).frame_counts,
            final(self)@ == advance_spec(old(self).frame_counts, old(self)@),
    {
        let frame_count = self.frame_count(self.current);
        self.anim_frame_counter = self.anim_frame_counter + 1;

        if self.current == CrabAnimation::PreJump && self.anim_frame_counter >= frame_count {
            self.change_animation(CrabAnimation::IdleJump);
        } else if self.current == CrabAnimation::LandJump
            && self.anim_frame_counter >= frame_count {
            self.change_animation(CrabAnimation::Idle);
        } else if self.current == CrabAnimation::Emote && self.anim_frame_counter >= frame_count {
            self.change_animation(CrabAnimation::Idle);
        } else {
            self.anim_frame_counter = self.anim_frame_counter % frame_count;
        }
    }
}

} // verus!
