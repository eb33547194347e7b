//! Input-driven motion state of a player-controlled entity.
use vstd::prelude::*;

verus! {

/// The movement or combat mode of an entity.
#[derive(Debug, Clone, Copy, PartialEq, Eq, Structural)]
pub enum PlayerState {
    Idle,
    Walking,
    Running,
    Attacking,
    Hurt,
    Dead,
}

/// A movement direction in whole units per axis.
#[derive(Debug, Clone, Copy, PartialEq, Eq, Structural)]
pub struct Velocity {
    pub x: i32,
    pub y: i32,
}

impl Velocity {
    /// The zero vector.
    pub fn zero() -> (r: Velocity)
        ensures
            r == (Velocity { x: 0, y: 0 }),
    {
        Velocity { x: 0, y: 0 }
    }

    /// Whether this is the zero vector.
    pub fn is_zero(&self) -> (r: bool)
        ensures
            r == (self.x == 0 && self.y == 0),
    {
        self.x == 0 && self.y == 0
    }
}

/// An input event for a player entity.
#[derive(Debug, Clone, Copy, PartialEq, Eq, Structural)]
pub enum PlayerInputs {
    Move(Velocity),
    Attack,
}

/// The movement an entity was last asked for, and its speed factor.
#[derive(Debug, Clone, Copy, PartialEq, Eq, Structural)]
pub struct PlayerInputState {
    pub movement_velocity: Velocity,
    pub speed_multiplier: u32,
}

/// The speed factor a player entity starts with.
pub const PLAYER_SPEED: u32 = 150;

impl PlayerInputState {
    /// Standing still, at the starting speed factor.
    pub fn new() -> (r: PlayerInputState)
        ensures
            r.movement_velocity == (Velocity { x: 0, y: 0 }),
            r.speed_multiplier == PLAYER_SPEED,
    {
        PlayerInputState { movement_velocity: Velocity::zero(), speed_multiplier: PLAYER_SPEED }
    }
}

/// The state after one input event: a move sets `Idle` for the zero vector
/// and `Walking` otherwise, unless the entity is attacking; an attack always
/// sets `Attacking`. By design no event leaves `Attacking`: it neither times
/// out nor ends on a move, and an "attack finished" event does not exist.
pub open spec fn state_after(s: PlayerState, ev: PlayerInputs) -> PlayerState {
    match ev {
        PlayerInputs::Move(v) => if s == PlayerState::Attacking {
            s
        } else if v.x == 0 && v.y == 0 {
            PlayerState::Idle
        } else {
            PlayerState::Walking
        },
        PlayerInputs::Attack => PlayerState::Attacking,
    }
}

/// The requested movement after one input event.
pub open spec fn input_after(i: PlayerInputState, ev: PlayerInputs) -> PlayerInputState {
    match ev {
        PlayerInputs::Move(v) => PlayerInputState { movement_velocity: v, ..i },
        PlayerInputs::Attack => i,
    }
}

/// The state after the events `evs`, applied in order.
pub open spec fn state_after_all(s: PlayerState, evs: Seq<PlayerInputs>) -> PlayerState
    decreases evs.len(),
{
    if evs.len() == 0 {
        s
    } else {
        state_after_all(state_after(s, evs[0]), evs.drop_first())
    }
}

/// The requested movement after the events `evs`, applied in order.
pub open spec fn input_after_all(i: PlayerInputState, evs: Seq<PlayerInputs>) -> PlayerInputState
    decreases evs.len(),
{
    if evs.len() == 0 {
        i
    } else {
        input_after_all(input_after(i, evs[0]), evs.drop_first())
    }
}

/// Applies one input event to an entity's state and requested movement.
pub fn on_input_event(state: &mut PlayerState, input: &mut PlayerInputState, ev: PlayerInputs)
    ensures
        *final(state) == state_after(*old(state), ev),
        *final(input) == input_after(*old(input), ev),
        match ev {
            PlayerInputs::Move(v) => if *old(state) == PlayerState::Attacking {
                *final(state) == PlayerState::Attacking
            } else if v.x == 0 && v.y == 0 {
                *final(state) == PlayerState::Idle
            } else {
                *final(state) == PlayerState::Walking
            },
            PlayerInputs::Attack => true,
        },
        ev == PlayerInputs::Attack ==> *final(state) == PlayerState::Attacking,
{
    match ev {
        PlayerInputs::Move(v) => {
            input.movement_velocity = v;
            if *state != PlayerState::Attacking {
                if v.is_zero() {
                    *state = PlayerState::Idle;
                } else {
                    *state = PlayerState::Walking;
                }
            }
        },
        PlayerInputs::Attack => {
            *state = PlayerState::Attacking;
        },
    }
}

/// Applies the events `evs` in order to an entity's state and requested
/// movement.
pub fn player_movement_state(
    state: &mut PlayerState,
    input: &mut PlayerInputState,
    evs: &Vec<PlayerInputs>,
)
    ensures
        *final(state) == state_after_all(*old(state), evs@),
        *final(input) == input_after_all(*old(input), evs@),
{
    let ghost s0 = *state;
    let ghost i0 = *input;
    let mut k: usize = 0;
    proof {
        assert(evs@.subrange(0, evs@.len() as int) =~= evs@);
    }
    while k < evs.len()
        invariant
            k <= evs@.len(),
            state_after_all(s0, evs@) == state_after_all(*state, evs@.subrange(k as int, evs@.len() as int)),
            input_after_all(i0, evs@) == input_after_all(*input, evs@.subrange(k as int, evs@.len() as int)),
        decreases evs@.len() - k,
    {
        let ev = evs[k];
        proof {
            let rest = evs@.subrange(k as int, evs@.len() as int);
            assert(rest[0] == ev);
            assert(rest.drop_first() =~= evs@.subrange(k + 1, evs@.len() as int));
        }
        on_input_event(state, input, ev);
        k = k + 1;
    }
    proof {
        assert(evs@.subrange(k as int, evs@.len() as int) =~= Seq::<PlayerInputs>::empty());
    }
}

/// The events for one frame of keyboard state.
pub open spec fn keyboard_events(left_held: bool, right_held: bool, attack_pressed: bool) -> Seq<
    PlayerInputs,
> {
    let x: i32 = if left_held == right_held {
        0i32
    } else if left_held {
        -1i32
    } else {
        1i32
    };
    let mv = PlayerInputs::Move(Velocity { x, y: 0 });
    if attack_pressed {
        seq![mv, PlayerInputs::Attack]
    } else {
        seq![mv]
    }
}

/// The events for one frame of keyboard state: a move to the left, to the
/// right, or nowhere (both or neither arrow held), then an attack where the
/// attack key went down in this frame.
pub fn keyboard_input(left_held: bool, right_held: bool, attack_pressed: bool) -> (r: Vec<
    PlayerInputs,
>)
    ensures
        r@ == keyboard_events(left_held, right_held, attack_pressed),
{
    let mut x: i32 = 0;
    if left_held {
        x = x - 1;
    }
    if right_held {
        x = x + 1;
    }
    let mut r: Vec<PlayerInputs> = Vec::new();
    r.push(PlayerInputs::Move(Velocity { x, y: 0 }));
    if attack_pressed {
        r.push(PlayerInputs::Attack);
    }
    r
}

} // verus!
