//! Animation resources, their binding to an entity, and the frame cursor.
use vstd::prelude::*;
use crate::clock::{lemma_mod_below, FrameTimer, NANOS_PER_MILLI};
use crate::motion::{
    on_input_event, state_after, input_after, PlayerInputState, PlayerInputs, PlayerState,
    Velocity, PLAYER_SPEED,
};

verus! {

/// Which sprite sheet an animation shows.
#[derive(Debug, Clone, Copy, PartialEq, Eq, Structural)]
pub enum AnimKind {
    Idle,
    Walk,
    Attack,
}

/// A sprite sheet laid out as one row of equal frames.
#[derive(Debug, Clone, Copy, PartialEq, Eq, Structural)]
pub struct Animation {
    pub kind: AnimKind,
    pub frames: usize,
    pub frame_width: u32,
    pub frame_height: u32,
}

/// Frames in the idle sheet.
pub const IDLE_FRAMES: usize = 6;
/// Frames in the walking sheet.
pub const WALK_FRAMES: usize = 10;
/// Frames in the attack sheet.
pub const ATTACK_FRAMES: usize = 4;
/// Width and height of one frame, in pixels.
pub const FRAME_SIZE: u32 = 128;
/// Time each frame stays on screen: a tenth of a second.
pub const FRAME_PERIOD_NANOS: u64 = 100 * NANOS_PER_MILLI;

impl Animation {
    /// Whether the sheet has at least one frame.
    pub open spec fn wf(&self) -> bool {
        self.frames >= 1
    }

    /// Width of the whole sheet: one frame width per frame.
    pub fn texture_width(&self) -> (r: u64)
        requires
            self.frames <= u32::MAX,
        ensures
            r == self.frames * self.frame_width,
    {
        proof {
            assert(self.frames * self.frame_width <= u32::MAX * u32::MAX) by (nonlinear_arith)
                requires
                    self.frames <= u32::MAX,
                    self.frame_width <= u32::MAX,
            ;
        }
        (self.frames as u64) * (self.frame_width as u64)
    }
}

/// The animations of a player entity, loaded once on entering the game.
#[derive(Debug, Clone, Copy, PartialEq, Eq, Structural)]
pub struct PlayerAnimations {
    pub idle: Animation,
    pub walk: Animation,
    pub attack: Animation,
}

impl PlayerAnimations {
    /// Each animation has the kind of its slot and at least one frame.
    pub open spec fn wf(&self) -> bool {
        &&& self.idle.kind == AnimKind::Idle && self.idle.wf()
        &&& self.walk.kind == AnimKind::Walk && self.walk.wf()
        &&& self.attack.kind == AnimKind::Attack && self.attack.wf()
    }

    /// The animation shown in state `s`; `None` for states that have none,
    /// which the animation then skips.
    pub open spec fn spec_animation_for(&self, s: PlayerState) -> Option<Animation> {
        match s {
            PlayerState::Idle => Some(self.idle),
            PlayerState::Walking => Some(self.walk),
            PlayerState::Attacking => Some(self.attack),
            _ => None,
        }
    }

    /// The player's sheets.
    pub open spec fn spec_new() -> PlayerAnimations {
        PlayerAnimations {
            idle: Animation {
                kind: AnimKind::Idle,
                frames: IDLE_FRAMES,
                frame_width: FRAME_SIZE,
                frame_height: FRAME_SIZE,
            },
            walk: Animation {
                kind: AnimKind::Walk,
                frames: WALK_FRAMES,
                frame_width: FRAME_SIZE,
                frame_height: FRAME_SIZE,
            },
            attack: Animation {
                kind: AnimKind::Attack,
                frames: ATTACK_FRAMES,
                frame_width: FRAME_SIZE,
                frame_height: FRAME_SIZE,
            },
        }
    }

    /// The player's sheets: 6 idle, 10 walking and 4 attack frames of
    /// 128 by 128 pixels.
    pub fn new() -> (r: PlayerAnimations)
        ensures
            r == PlayerAnimations::spec_new(),
            r.wf(),
            r.idle.frames == IDLE_FRAMES,
            r.walk.frames == WALK_FRAMES,
            r.attack.frames == ATTACK_FRAMES,
            r.idle.frame_width == FRAME_SIZE && r.idle.frame_height == FRAME_SIZE,
            r.walk.frame_width == FRAME_SIZE && r.walk.frame_height == FRAME_SIZE,
            r.attack.frame_width == FRAME_SIZE && r.attack.frame_height == FRAME_SIZE,
    {
        PlayerAnimations {
            idle: Animation {
                kind: AnimKind::Idle,
                frames: IDLE_FRAMES,
                frame_width: FRAME_SIZE,
                frame_height: FRAME_SIZE,
            },
            walk: Animation {
                kind: AnimKind::Walk,
                frames: WALK_FRAMES,
                frame_width: FRAME_SIZE,
                frame_height: FRAME_SIZE,
            },
            attack: Animation {
                kind: AnimKind::Attack,
                frames: ATTACK_FRAMES,
                frame_width: FRAME_SIZE,
                frame_height: FRAME_SIZE,
            },
        }
    }

    /// The animation of kind `k`.
    pub open spec fn spec_by_kind(&self, k: AnimKind) -> Animation {
        match k {
            AnimKind::Idle => self.idle,
            AnimKind::Walk => self.walk,
            AnimKind::Attack => self.attack,
        }
    }

    /// The animation shown in state `s`, if any.
    pub fn animation_for(&self, s: PlayerState) -> (r: Option<Animation>)
        ensures
            r == self.spec_animation_for(s),
    {
        match s {
            PlayerState::Idle => Some(self.idle),
            PlayerState::Walking => Some(self.walk),
            PlayerState::Attacking => Some(self.attack),
            _ => None,
        }
    }
}

/// The frame after `index` in the inclusive range `start..=end`: one more,
/// or back to `start` past `end`.
pub open spec fn spec_next_frame(index: usize, start: usize, end: usize) -> usize {
    if index >= end {
        start
    } else {
        (index + 1) as usize
    }
}

/// The frame after `index` in the inclusive range `start..=end`.
pub fn next_frame(index: usize, start: usize, end: usize) -> (r: usize)
    ensures
        r == spec_next_frame(index, start, end),
        start <= index <= end ==> start <= r <= end,
        index == end ==> r == start,
{
    if index >= end {
        start
    } else {
        index + 1
    }
}

/// Stepping the frame cursor from within `start..=end` stays within it,
/// and stepping from `end` lands exactly on `start`.
pub proof fn lemma_next_frame_in_bounds(index: usize, start: usize, end: usize)
    requires
        start <= index <= end,
    ensures
        start <= spec_next_frame(index, start, end) <= end,
        spec_next_frame(end, start, end) == start,
{
}

/// The animation bound to an entity: which sheet, the inclusive frame
/// bounds, the current frame, and the timer that paces the frames.
pub struct SpriteAnimState {
    pub kind: AnimKind,
    pub start_index: usize,
    pub end_index: usize,
    pub index: usize,
    pub frame_width: u32,
    pub frame_height: u32,
    pub timer: FrameTimer,
}

impl SpriteAnimState {
    /// The current frame lies within the bounds and the timer is sound.
    pub open spec fn wf(&self) -> bool {
        &&& self.start_index <= self.index <= self.end_index
        &&& self.timer.wf()
    }

    /// Whether this binding shows the whole of `a`, from any frame.
    pub open spec fn shows(&self, a: Animation) -> bool {
        &&& self.kind == a.kind
        &&& self.start_index == 0
        &&& self.end_index == a.frames - 1
        &&& self.frame_width == a.frame_width
        &&& self.frame_height == a.frame_height
    }

    /// Whether this binding is at its first frame with a fresh frame timer
    /// of a tenth of a second.
    pub open spec fn fresh(&self) -> bool {
        &&& self.index == 0
        &&& self.timer.period() == FRAME_PERIOD_NANOS
        &&& self.timer.elapsed() == 0
    }

    /// Whether this binding is `prev` after its timer ran for `delta_nanos`:
    /// same sheet and bounds, the timer's remainder carried on, and the
    /// frame stepped once exactly where the timer reached its period.
    pub open spec fn animated_from(&self, prev: SpriteAnimState, delta_nanos: u64) -> bool {
        let total = prev.timer.elapsed() + delta_nanos;
        &&& self.kind == prev.kind
        &&& self.start_index == prev.start_index
        &&& self.end_index == prev.end_index
        &&& self.frame_width == prev.frame_width
        &&& self.frame_height == prev.frame_height
        &&& self.timer.period() == prev.timer.period()
        &&& self.timer.elapsed() == total % (prev.timer.period() as int)
        &&& self.timer.wf()
        &&& self.index == (if total >= prev.timer.period() {
            spec_next_frame(prev.index, prev.start_index, prev.end_index)
        } else {
            prev.index
        })
    }

    /// Whether this binding is one animation tick of `delta_nanos` on from
    /// `prev` while showing `a`: `prev` animated where it already showed
    /// `a`'s sheet, else a fresh binding to `a` animated.
    pub open spec fn advanced_from(&self, prev: SpriteAnimState, a: Animation, delta_nanos: u64) -> bool {
        if prev.kind == a.kind {
            self.animated_from(prev, delta_nanos)
        } else {
            &&& self.shows(a)
            &&& self.timer.wf()
            &&& self.timer.period() == FRAME_PERIOD_NANOS
            &&& self.timer.elapsed() == (delta_nanos as int) % (FRAME_PERIOD_NANOS as int)
            &&& self.index == (if delta_nanos >= FRAME_PERIOD_NANOS {
                spec_next_frame(0, 0, (a.frames - 1) as usize)
            } else {
                0
            })
        }
    }

    /// Whether this binding shows the animation of its kind in `anims`.
    pub open spec fn bound_in(&self, anims: PlayerAnimations) -> bool {
        self.shows(anims.spec_by_kind(self.kind))
    }

    /// A binding to `a` at its first frame, with a fresh frame timer.
    pub fn new(a: &Animation) -> (r: SpriteAnimState)
        requires
            a.wf(),
        ensures
            r.wf(),
            r.shows(*a),
            r.fresh(),
    {
        SpriteAnimState {
            kind: a.kind,
            start_index: 0,
            end_index: a.frames - 1,
            index: 0,
            frame_width: a.frame_width,
            frame_height: a.frame_height,
            timer: FrameTimer::repeating(FRAME_PERIOD_NANOS),
        }
    }

    /// Moves to the next frame where `fired`, and stays otherwise.
    pub fn step_frame(&mut self, fired: bool)
        ensures
            final(self).index == (if fired {
                spec_next_frame(old(self).index, old(self).start_index, old(self).end_index)
            } else {
                old(self).index
            }),
            final(self).kind == old(self).kind,
            final(self).start_index == old(self).start_index,
            final(self).end_index == old(self).end_index,
            final(self).frame_width == old(self).frame_width,
            final(self).frame_height == old(self).frame_height,
            final(self).timer == old(self).timer,
            old(self).wf() ==> final(self).wf(),
    {
        if fired {
            self.index = next_frame(self.index, self.start_index, self.end_index);
        }
    }

    /// Advances the frame timer by `delta_nanos`, and the frame by one
    /// exactly where the timer reached its period. The frame stays within
    /// the bounds.
    pub fn animate_sprite(&mut self, delta_nanos: u64)
        requires
            old(self).timer.wf(),
        ensures
            final(self).animated_from(*old(self), delta_nanos),
            old(self).wf() ==> final(self).wf(),
    {
        let ghost prev_elapsed = self.timer.elapsed();
        let ghost period = self.timer.period();
        self.timer.tick(delta_nanos);
        proof {
            lemma_mod_below(prev_elapsed + delta_nanos, period as int);
        }
        let fired = self.timer.finished();
        self.step_frame(fired);
    }

    /// Binds to `a` where it is another sheet than the bound one: new
    /// bounds, first frame, fresh timer. Binding to the same sheet again
    /// changes nothing.
    pub fn rebind(&mut self, a: &Animation)
        requires
            a.wf(),
        ensures
            old(self).kind == a.kind ==> *final(self) == *old(self),
            old(self).kind != a.kind ==> final(self).shows(*a) && final(self).fresh(),
            old(self).kind != a.kind ==> final(self).wf(),
            old(self).wf() ==> final(self).wf(),
    {
        if self.kind != a.kind {
            *self = SpriteAnimState::new(a);
        }
    }

    /// Binds to the animation of state `s`, if it has one.
    pub fn update_player_animation(&mut self, s: PlayerState, anims: &PlayerAnimations)
        requires
            anims.wf(),
        ensures
            match anims.spec_animation_for(s) {
                None => *final(self) == *old(self),
                Some(a) => if old(self).kind == a.kind {
                    *final(self) == *old(self)
                } else {
                    final(self).shows(a) && final(self).fresh()
                },
            },
            old(self).wf() ==> final(self).wf(),
    {
        match anims.animation_for(s) {
            Some(a) => self.rebind(&a),
            None => {},
        }
    }
}

/// A player-controlled entity: its motion state, requested movement, and
/// bound animation.
pub struct Player {
    pub state: PlayerState,
    pub input: PlayerInputState,
    pub anim: SpriteAnimState,
}

impl Player {
    /// The bound animation is one of `anims` and, where the entity's state
    /// has an animation, that one; the frame lies within the bounds.
    pub open spec fn wf(&self, anims: PlayerAnimations) -> bool {
        &&& self.anim.wf()
        &&& self.anim.bound_in(anims)
        &&& (match anims.spec_animation_for(self.state) {
            Some(a) => self.anim.kind == a.kind,
            None => true,
        })
    }

    /// A standing, idle player at the first idle frame.
    pub fn new(anims: &PlayerAnimations) -> (r: Player)
        requires
            anims.wf(),
        ensures
            r.state == PlayerState::Idle,
            r.input.movement_velocity == (Velocity { x: 0, y: 0 }),
            r.input.speed_multiplier == PLAYER_SPEED,
            r.anim.shows(anims.idle),
            r.anim.fresh(),
            r.wf(*anims),
    {
        Player {
            state: PlayerState::Idle,
            input: PlayerInputState::new(),
            anim: SpriteAnimState::new(&anims.idle),
        }
    }

    /// Applies one input event to the entity's state and requested movement.
    pub fn on_input_event(&mut self, ev: PlayerInputs)
        ensures
            final(self).state == state_after(old(self).state, ev),
            final(self).input == input_after(old(self).input, ev),
            final(self).anim == old(self).anim,
    {
        on_input_event(&mut self.state, &mut self.input, ev);
    }

    /// One animation tick: where the entity's state has an animation, binds
    /// it if another one is bound (first frame, fresh timer), then advances
    /// the frame timer by `delta_nanos` and the frame exactly where the timer
    /// reached its period. A state without an animation skips the tick.
    pub fn advance(&mut self, delta_nanos: u64, anims: &PlayerAnimations)
        requires
            anims.wf(),
            old(self).anim.wf(),
        ensures
            final(self).state == old(self).state,
            final(self).input == old(self).input,
            match anims.spec_animation_for(old(self).state) {
                None => final(self).anim == old(self).anim,
                Some(a) => final(self).anim.advanced_from(old(self).anim, a, delta_nanos),
            },
            final(self).anim.wf(),
            old(self).anim.bound_in(*anims) ==> final(self).wf(*anims),
    {
        match anims.animation_for(self.state) {
            Some(a) => {
                self.anim.rebind(&a);
                self.anim.animate_sprite(delta_nanos);
            },
            None => {},
        }
    }
}

/// Entering the game: the animation catalog, and the player entity standing
/// idle at its first frame.
pub fn setup_sprite_animation() -> (r: (PlayerAnimations, Player))
    ensures
        r.0 == PlayerAnimations::spec_new(),
        r.0.wf(),
        r.1.state == PlayerState::Idle,
        r.1.input.movement_velocity == (Velocity { x: 0, y: 0 }),
        r.1.input.speed_multiplier == PLAYER_SPEED,
        r.1.anim.shows(r.0.idle),
        r.1.anim.fresh(),
        r.1.wf(r.0),
{
    let anims = PlayerAnimations::new();
    let player = Player::new(&anims);
    (anims, player)
}

} // verus!
