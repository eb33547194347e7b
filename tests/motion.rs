use lobby_core::motion::{
    keyboard_input, on_input_event, player_movement_state, PlayerInputState, PlayerInputs,
    PlayerState, Velocity, PLAYER_SPEED,
};

fn mv(x: i32, y: i32) -> PlayerInputs {
    PlayerInputs::Move(Velocity { x, y })
}

#[test]
fn walk_then_attack_then_stop_stays_attacking() {
    let mut s = PlayerState::Idle;
    let mut i = PlayerInputState::new();
    on_input_event(&mut s, &mut i, mv(1, 0));
    assert_eq!(s, PlayerState::Walking);
    on_input_event(&mut s, &mut i, PlayerInputs::Attack);
    assert_eq!(s, PlayerState::Attacking);
    on_input_event(&mut s, &mut i, mv(0, 0));
    assert_eq!(s, PlayerState::Attacking);
    assert_eq!(i.movement_velocity, Velocity::zero());
}

#[test]
fn moves_set_idle_or_walking_unless_attacking() {
    for start in [
        PlayerState::Idle,
        PlayerState::Walking,
        PlayerState::Running,
        PlayerState::Hurt,
        PlayerState::Dead,
    ] {
        let mut s = start;
        let mut i = PlayerInputState::new();
        on_input_event(&mut s, &mut i, mv(0, 0));
        assert_eq!(s, PlayerState::Idle);
        let mut s = start;
        on_input_event(&mut s, &mut i, mv(-1, 0));
        assert_eq!(s, PlayerState::Walking);
        assert_eq!(i.movement_velocity, Velocity { x: -1, y: 0 });
        let mut s = start;
        on_input_event(&mut s, &mut i, mv(0, 3));
        assert_eq!(s, PlayerState::Walking);
    }
}

#[test]
fn attack_always_forces_attacking() {
    for start in [
        PlayerState::Idle,
        PlayerState::Walking,
        PlayerState::Running,
        PlayerState::Attacking,
        PlayerState::Hurt,
        PlayerState::Dead,
    ] {
        let mut s = start;
        let mut i = PlayerInputState::new();
        on_input_event(&mut s, &mut i, PlayerInputs::Attack);
        assert_eq!(s, PlayerState::Attacking);
        assert_eq!(i, PlayerInputState::new());
    }
}

#[test]
fn events_apply_in_order() {
    let mut s = PlayerState::Idle;
    let mut i = PlayerInputState::new();
    player_movement_state(&mut s, &mut i, &vec![mv(1, 0), mv(0, 0), mv(-1, 0)]);
    assert_eq!(s, PlayerState::Walking);
    assert_eq!(i.movement_velocity, Velocity { x: -1, y: 0 });
    player_movement_state(&mut s, &mut i, &vec![PlayerInputs::Attack, mv(1, 0)]);
    assert_eq!(s, PlayerState::Attacking);
    assert_eq!(i.movement_velocity, Velocity { x: 1, y: 0 });
    player_movement_state(&mut s, &mut i, &vec![]);
    assert_eq!(s, PlayerState::Attacking);
}

#[test]
fn keyboard_state_becomes_events() {
    assert_eq!(keyboard_input(false, false, false), vec![mv(0, 0)]);
    assert_eq!(keyboard_input(true, false, false), vec![mv(-1, 0)]);
    assert_eq!(keyboard_input(false, true, false), vec![mv(1, 0)]);
    assert_eq!(keyboard_input(true, true, false), vec![mv(0, 0)]);
    assert_eq!(keyboard_input(false, true, true), vec![mv(1, 0), PlayerInputs::Attack]);
}

#[test]
fn input_state_starts_still() {
    let i = PlayerInputState::new();
    assert_eq!(i.speed_multiplier, PLAYER_SPEED);
    assert_eq!(PLAYER_SPEED, 150);
    assert!(i.movement_velocity.is_zero());
    assert!(!Velocity { x: 0, y: 1 }.is_zero());
}
