use lobby_core::flow::{
    button_look, contains_control, is_control, ButtonLook, ButtonRole, FlowController,
    Interaction, Key, KeyInput, RoomCreationData, RoomError, Screen, UiEvent,
};

fn press(role: ButtonRole) -> UiEvent {
    UiEvent::Button(role, Interaction::Pressed)
}

fn type_text(s: &str) -> UiEvent {
    UiEvent::Text(KeyInput { key: Key::Character(s.to_string()), pressed: true })
}

fn backspace() -> UiEvent {
    UiEvent::Text(KeyInput { key: Key::Backspace, pressed: true })
}

#[test]
fn host_type_confirm_reaches_lobby_and_reentry_starts_empty() {
    let mut c = FlowController::new();
    assert_eq!(c.screen, Screen::MainMenu);
    assert_eq!(c.on_ui_event(&press(ButtonRole::Host)), Ok(Some(Screen::CreateRoom)));
    assert_eq!(c.screen, Screen::CreateRoom);
    assert_eq!(c.on_ui_event(&type_text("Alpha")), Ok(None));
    assert_eq!(c.on_ui_event(&press(ButtonRole::Confirm)), Ok(Some(Screen::Lobby)));
    assert_eq!(c.screen, Screen::Lobby);
    assert_eq!(c.room.room_name, "Alpha");
    assert_eq!(c.request_transition(Screen::CreateRoom), Screen::Lobby);
    assert_eq!(c.screen, Screen::CreateRoom);
    assert_eq!(c.room.room_name, "");
    assert!(!c.room.is_private);
}

#[test]
fn join_goes_in_game() {
    let mut c = FlowController::new();
    assert_eq!(c.on_ui_event(&press(ButtonRole::Join)), Ok(Some(Screen::InGame)));
    assert_eq!(c.screen, Screen::InGame);
}

#[test]
fn confirm_with_empty_name_is_rejected_and_changes_nothing() {
    let mut c = FlowController::new();
    c.on_ui_event(&press(ButtonRole::Host)).unwrap();
    assert_eq!(c.on_ui_event(&press(ButtonRole::Confirm)), Err(RoomError::EmptyRoomName));
    assert_eq!(c.screen, Screen::CreateRoom);
    assert_eq!(c.room.room_name, "");
    assert_eq!(RoomError::EmptyRoomName.message(), "Please enter a room name.");
}

#[test]
fn presses_for_another_screen_are_ignored() {
    let mut c = FlowController::new();
    assert_eq!(c.on_ui_event(&press(ButtonRole::Confirm)), Ok(None));
    assert_eq!(c.on_ui_event(&press(ButtonRole::ToggleType)), Ok(None));
    assert_eq!(c.on_ui_event(&type_text("x")), Ok(None));
    assert_eq!(c.screen, Screen::MainMenu);
    assert_eq!(c.room.room_name, "");
    assert!(!c.room.is_private);
    c.on_ui_event(&press(ButtonRole::Join)).unwrap();
    assert_eq!(c.on_ui_event(&press(ButtonRole::Host)), Ok(None));
    assert_eq!(c.screen, Screen::InGame);
}

#[test]
fn host_join_confirm_sequence_follows_the_table() {
    let mut c = FlowController::new();
    let seq = [ButtonRole::Host, ButtonRole::Confirm, ButtonRole::Join, ButtonRole::Host];
    let expected = [
        Ok(Some(Screen::CreateRoom)),
        Err(RoomError::EmptyRoomName),
        Ok(None),
        Ok(None),
    ];
    for (role, want) in seq.iter().zip(expected.iter()) {
        assert_eq!(&c.on_ui_event(&press(*role)), want);
    }
    assert_eq!(c.screen, Screen::CreateRoom);
}

#[test]
fn hover_and_release_do_not_transition() {
    let mut c = FlowController::new();
    let ev = UiEvent::Button(ButtonRole::Host, Interaction::Hovered);
    assert_eq!(c.on_ui_event(&ev), Ok(None));
    let ev = UiEvent::Button(ButtonRole::Join, Interaction::Untouched);
    assert_eq!(c.on_ui_event(&ev), Ok(None));
    assert_eq!(c.screen, Screen::MainMenu);
}

#[test]
fn toggle_flips_privacy_and_label() {
    let mut c = FlowController::new();
    c.on_ui_event(&press(ButtonRole::Host)).unwrap();
    assert_eq!(c.room.room_type_label(), "Room Type: Public");
    c.on_ui_event(&press(ButtonRole::ToggleType)).unwrap();
    assert!(c.room.is_private);
    assert_eq!(c.room.room_type_label(), "Room Type: Private");
    c.on_ui_event(&press(ButtonRole::ToggleType)).unwrap();
    assert!(!c.room.is_private);
    assert_eq!(c.screen, Screen::CreateRoom);
}

#[test]
fn text_input_edits_the_room_name() {
    let mut c = FlowController::new();
    c.on_ui_event(&press(ButtonRole::Host)).unwrap();
    c.on_ui_event(&type_text("Ab")).unwrap();
    c.on_ui_event(&type_text("\u{7}")).unwrap();
    c.on_ui_event(&type_text("c\n")).unwrap();
    assert_eq!(c.room.room_name, "Ab");
    c.on_ui_event(&UiEvent::Text(KeyInput { key: Key::Character("z".to_string()), pressed: false }))
        .unwrap();
    c.on_ui_event(&UiEvent::Text(KeyInput { key: Key::Other, pressed: true })).unwrap();
    assert_eq!(c.room.room_name, "Ab");
    c.on_ui_event(&backspace()).unwrap();
    assert_eq!(c.room.room_name, "A");
    c.on_ui_event(&type_text("é")).unwrap();
    assert_eq!(c.room.room_name, "Aé");
    c.on_ui_event(&backspace()).unwrap();
    c.on_ui_event(&backspace()).unwrap();
    c.on_ui_event(&backspace()).unwrap();
    assert_eq!(c.room.room_name, "");
}

#[test]
fn control_characters_are_recognised() {
    assert!(is_control('\u{0}'));
    assert!(is_control('\u{1f}'));
    assert!(!is_control(' '));
    assert!(is_control('\u{7f}'));
    assert!(is_control('\u{9f}'));
    assert!(!is_control('\u{a0}'));
    assert!(!is_control('a'));
    assert!(contains_control("ab\tc"));
    assert!(!contains_control("abc"));
    assert!(!contains_control(""));
    for c in ['\u{0}', '\u{1f}', ' ', '\u{7f}', '\u{9f}', '\u{a0}', 'a', 'é'] {
        assert_eq!(is_control(c), c.is_control());
    }
}

#[test]
fn default_room_data_is_public_and_unnamed() {
    let d = RoomCreationData::default();
    assert!(!d.is_private);
    assert_eq!(d.room_name, "");
}

#[test]
fn buttons_look_hovered_or_normal() {
    assert_eq!(button_look(Interaction::Hovered), Some(ButtonLook::Hovered));
    assert_eq!(button_look(Interaction::Untouched), Some(ButtonLook::Normal));
    assert_eq!(button_look(Interaction::Pressed), None);
}

#[test]
fn event_sequences_report_each_outcome() {
    let mut c = FlowController::new();
    let evs = vec![
        press(ButtonRole::Host),
        press(ButtonRole::Confirm),
        type_text("Room"),
        press(ButtonRole::ToggleType),
        press(ButtonRole::Confirm),
        press(ButtonRole::Join),
    ];
    let r = c.on_ui_events(&evs);
    assert_eq!(
        r,
        vec![
            Ok(Some(Screen::CreateRoom)),
            Err(RoomError::EmptyRoomName),
            Ok(None),
            Ok(None),
            Ok(Some(Screen::Lobby)),
            Ok(None),
        ]
    );
    assert_eq!(c.screen, Screen::Lobby);
    assert_eq!(c.room.room_name, "Room");
    assert!(c.room.is_private);
    let mut d = FlowController::new();
    assert!(d.on_ui_events(&vec![]).is_empty());
    assert_eq!(d.screen, Screen::MainMenu);
}
