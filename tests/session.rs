use lobby_core::animation::{AnimKind, FRAME_PERIOD_NANOS};
use lobby_core::flow::{ButtonRole, Interaction, Key, KeyInput, Screen, UiEvent};
use lobby_core::motion::PlayerState;
use lobby_core::scenario::Notice;
use lobby_core::session::{FrameInput, Session};

fn press(role: ButtonRole) -> UiEvent {
    UiEvent::Button(role, Interaction::Pressed)
}

fn frame(left: bool, right: bool, attack: bool, delta: u64) -> FrameInput {
    FrameInput { left_held: left, right_held: right, attack_pressed: attack, delta_nanos: delta }
}

#[test]
fn menu_to_lobby_with_a_named_room() {
    let mut s = Session::new();
    assert_eq!(s.roster.len(), 6);
    assert_eq!(s.flow.screen, Screen::MainMenu);
    assert_eq!(s.on_ui_event(&press(ButtonRole::Host)), Ok(Some(Screen::CreateRoom)));
    let typed = UiEvent::Text(KeyInput { key: Key::Character("Alpha".to_string()), pressed: true });
    s.on_ui_event(&typed).unwrap();
    assert_eq!(s.on_ui_event(&press(ButtonRole::Confirm)), Ok(Some(Screen::Lobby)));
    assert_eq!(s.flow.room.room_name, "Alpha");
    assert!(s.player.is_none());
    s.request_transition(Screen::CreateRoom);
    assert_eq!(s.flow.room.room_name, "");
}

#[test]
fn joining_spawns_the_player_and_ticks_the_game() {
    let mut s = Session::new();
    let r = s.tick(frame(false, true, false, FRAME_PERIOD_NANOS));
    assert!(r.notices.is_empty());
    assert!(s.game_state.current_scenario.is_none());
    assert_eq!(s.on_ui_event(&press(ButtonRole::Join)), Ok(Some(Screen::InGame)));
    let p = s.player.as_ref().unwrap();
    assert_eq!((p.state, p.anim.kind, p.anim.index), (PlayerState::Idle, AnimKind::Idle, 0));
    let r = s.tick(frame(false, true, false, FRAME_PERIOD_NANOS));
    let p = s.player.as_ref().unwrap();
    assert_eq!(p.state, PlayerState::Walking);
    assert_eq!((p.anim.kind, p.anim.index), (AnimKind::Walk, 1));
    assert_eq!(r.notices.len(), 2);
    assert!(matches!(r.notices[0], Notice::ScenarioStarted { .. }));
    s.tick(frame(false, false, true, FRAME_PERIOD_NANOS));
    let p = s.player.as_ref().unwrap();
    assert_eq!((p.state, p.anim.kind), (PlayerState::Attacking, AnimKind::Attack));
    s.tick(frame(false, false, false, FRAME_PERIOD_NANOS));
    assert_eq!(s.player.as_ref().unwrap().state, PlayerState::Attacking);
}

#[test]
fn leaving_the_game_removes_its_entities() {
    let mut s = Session::new();
    s.on_ui_event(&press(ButtonRole::Join)).unwrap();
    assert!(s.player.is_some() && s.animations.is_some());
    assert_eq!(s.request_transition(Screen::Lobby), Screen::InGame);
    assert!(s.player.is_none() && s.animations.is_none());
}

#[test]
fn announcer_greets_every_five_seconds() {
    let mut s = Session::new();
    let r = s.tick(frame(false, false, false, 4_000_000_000));
    assert!(r.greetings.is_empty());
    let r = s.tick(frame(false, false, false, 1_000_000_000));
    assert_eq!(r.greetings.len(), 6);
    assert_eq!(r.greetings[4], "hello Ted!");
}
