//! The screen-level state machine and the room-creation form that lives
//! inside the `CreateRoom` screen.
use vstd::prelude::*;

verus! {

/// The top-level mode of the game. Exactly one is current at a time.
#[derive(Debug, Clone, Copy, PartialEq, Eq, Structural)]
pub enum Screen {
    MainMenu,
    Lobby,
    CreateRoom,
    InGame,
}

/// The role of an interactive button.
#[derive(Debug, Clone, Copy, PartialEq, Eq, Structural)]
pub enum ButtonRole {
    Host,
    Join,
    ToggleType,
    Confirm,
}

/// What happened to a button in this frame.
#[derive(Debug, Clone, Copy, PartialEq, Eq, Structural)]
pub enum Interaction {
    Pressed,
    Hovered,
    Untouched,
}

/// How a button is drawn after an interaction.
#[derive(Debug, Clone, Copy, PartialEq, Eq, Structural)]
pub enum ButtonLook {
    Normal,
    Hovered,
}

/// The logical key of a keyboard event, as far as text entry cares.
#[derive(Debug, Clone)]
pub enum Key {
    Backspace,
    Character(String),
    Other,
}

/// One keyboard event: the key and whether it went down (`true`) or up.
#[derive(Debug, Clone)]
pub struct KeyInput {
    pub key: Key,
    pub pressed: bool,
}

/// One event coming from the user interface.
#[derive(Debug, Clone)]
pub enum UiEvent {
    Button(ButtonRole, Interaction),
    Text(KeyInput),
}

/// Validation failure when confirming a room.
#[derive(Debug, Clone, Copy, PartialEq, Eq, Structural)]
pub enum RoomError {
    EmptyRoomName,
}

impl RoomError {
    /// The message shown to the user.
    pub fn message(&self) -> (r: &'static str)
        ensures
            r@ == "Please enter a room name."@,
    {
        "Please enter a room name."
    }
}

/// The data edited on the `CreateRoom` screen.
#[derive(Debug, Clone)]
pub struct RoomCreationData {
    pub is_private: bool,
    pub room_name: String,
}

impl Default for RoomCreationData {
    fn default() -> (r: RoomCreationData)
        ensures
            !r.is_private,
            r.room_name@ == Seq::<char>::empty(),
    {
        RoomCreationData { is_private: false, room_name: String::new() }
    }
}

/// A control character: general category Cc.
pub open spec fn is_control_char(c: char) -> bool {
    (c as u32) <= 0x1f || (0x7f <= (c as u32) && (c as u32) <= 0x9f)
}

/// Whether some character of `s` is a control character.
pub open spec fn has_control_char(s: Seq<char>) -> bool {
    exists|i: int| 0 <= i < s.len() && #[trigger] is_control_char(s[i])
}

/// The room name after one keyboard event: releases are ignored, backspace
/// removes the last character, and typed text is appended unless it holds a
/// control character.
pub open spec fn name_after_key(name: Seq<char>, k: KeyInput) -> Seq<char> {
    if !k.pressed {
        name
    } else {
        match k.key {
            Key::Backspace => if name.len() > 0 {
                name.drop_last()
            } else {
                name
            },
            Key::Character(s) => if has_control_char(s@) {
                name
            } else {
                name + s@
            },
            Key::Other => name,
        }
    }
}

/// Whether `c` is a control character (general category Cc).
pub fn is_control(c: char) -> (r: bool)
    ensures
        r == is_control_char(c),
{
    let u = c as u32;
    u <= 0x1f || (0x7f <= u && u <= 0x9f)
}

/// Whether some character of `s` is a control character.
pub fn contains_control(s: &str) -> (r: bool)
    ensures
        r == has_control_char(s@),
{
    let n = s.unicode_len();
    let mut i: usize = 0;
    while i < n
        invariant
            n == s@.len(),
            i <= n,
            forall|j: int| 0 <= j < i ==> !is_control_char(#[trigger] s@[j]),
        decreases n - i,
    {
        if is_control(s.get_char(i)) {
            return true;
        }
        i = i + 1;
    }
    false
}


impl RoomCreationData {
    /// Applies one keyboard event to the room name.
    pub fn handle_text_input(&mut self, k: &KeyInput)
        ensures
            final(self).room_name@ == name_after_key(old(self).room_name@, *k),
            final(self).is_private == old(self).is_private,
    {
        if !k.pressed {
            return;
        }
        match &k.key {
            Key::Backspace => {
                let n = self.room_name.as_str().unicode_len();
                if n > 0 {
                    let kept = String::from_str(self.room_name.as_str().substring_char(0, n - 1));
                    self.room_name = kept;
                }
            },
            Key::Character(s) => {
                if !contains_control(s.as_str()) {
                    self.room_name.append(s.as_str());
                }
            },
            Key::Other => {},
        }
    }

    /// Flips the room between public and private.
    pub fn toggle_type(&mut self)
        ensures
            final(self).is_private == !old(self).is_private,
            final(self).room_name@ == old(self).room_name@,
    {
        self.is_private = !self.is_private;
    }

    /// The label of the room-type toggle.
    pub fn room_type_label(&self) -> (r: &'static str)
        ensures
            r@ == (if self.is_private {
                "Room Type: Private"@
            } else {
                "Room Type: Public"@
            }),
    {
        if self.is_private {
            "Room Type: Private"
        } else {
            "Room Type: Public"
        }
    }
}

/// How a button looks after an interaction; `None` where it keeps its look.
pub fn button_look(i: Interaction) -> (r: Option<ButtonLook>)
    ensures
        r == (match i {
            Interaction::Pressed => None,
            Interaction::Hovered => Some(ButtonLook::Hovered),
            Interaction::Untouched => Some(ButtonLook::Normal),
        }),
{
    match i {
        Interaction::Pressed => None,
        Interaction::Hovered => Some(ButtonLook::Hovered),
        Interaction::Untouched => Some(ButtonLook::Normal),
    }
}

/// The abstract state of the flow controller.
pub struct FlowView {
    pub screen: Screen,
    pub is_private: bool,
    pub room_name: Seq<char>,
}

/// The state after entering screen `to`: the room form starts empty each
/// time `CreateRoom` is entered, and is kept otherwise.
pub open spec fn enter(v: FlowView, to: Screen) -> FlowView {
    if to == Screen::CreateRoom {
        FlowView { screen: to, is_private: false, room_name: Seq::empty() }
    } else {
        FlowView { screen: to, ..v }
    }
}

/// The transition table: the screen that a press of `role` leads to from
/// `screen`, given whether the room name is empty; `None` where the press
/// changes no screen.
pub open spec fn table(screen: Screen, name_empty: bool, role: ButtonRole) -> Option<Screen> {
    match (screen, role) {
        (Screen::MainMenu, ButtonRole::Host) => Some(Screen::CreateRoom),
        (Screen::MainMenu, ButtonRole::Join) => Some(Screen::InGame),
        (Screen::CreateRoom, ButtonRole::Confirm) => if name_empty {
            None
        } else {
            Some(Screen::Lobby)
        },
        _ => None,
    }
}

/// What `on_ui_event` returns for `ev` in state `v`.
pub open spec fn ui_outcome(v: FlowView, ev: UiEvent) -> Result<Option<Screen>, RoomError> {
    match ev {
        UiEvent::Button(role, Interaction::Pressed) => if v.screen == Screen::CreateRoom
            && role == ButtonRole::Confirm && v.room_name.len() == 0 {
            Err(RoomError::EmptyRoomName)
        } else {
            Ok(table(v.screen, v.room_name.len() == 0, role))
        },
        _ => Ok(None),
    }
}

/// The state after `ev` in state `v`.
pub open spec fn flow_step(v: FlowView, ev: UiEvent) -> FlowView {
    match ev {
        UiEvent::Button(role, Interaction::Pressed) => match table(
            v.screen,
            v.room_name.len() == 0,
            role,
        ) {
            Some(to) => enter(v, to),
            None => if v.screen == Screen::CreateRoom && role == ButtonRole::ToggleType {
                FlowView { is_private: !v.is_private, ..v }
            } else {
                v
            },
        },
        UiEvent::Button(_, _) => v,
        UiEvent::Text(k) => if v.screen == Screen::CreateRoom {
            FlowView { room_name: name_after_key(v.room_name, k), ..v }
        } else {
            v
        },
    }
}

/// The screen-level state machine: the current screen and the room form.
#[derive(Debug, Clone)]
pub struct FlowController {
    pub screen: Screen,
    pub room: RoomCreationData,
}

impl View for FlowController {
    type V = FlowView;

    open spec fn view(&self) -> FlowView {
        FlowView {
            screen: self.screen,
            is_private: self.room.is_private,
            room_name: self.room.room_name@,
        }
    }
}

impl FlowController {
    /// A controller on the main menu with an empty room form.
    pub fn new() -> (r: FlowController)
        ensures
            r@.screen == Screen::MainMenu,
            !r@.is_private,
            r@.room_name == Seq::<char>::empty(),
    {
        FlowController { screen: Screen::MainMenu, room: RoomCreationData::default() }
    }

    /// Leaves the current screen for `to` and returns the screen left. The
    /// exit of the returned screen comes before the entry of `to`; entering
    /// `CreateRoom` starts an empty room form.
    pub fn request_transition(&mut self, to: Screen) -> (from: Screen)
        ensures
            from == old(self)@.screen,
            final(self)@ == enter(old(self)@, to),
    {
        let from = self.screen;
        if to == Screen::CreateRoom {
            self.room = RoomCreationData::default();
        }
        self.screen = to;
        from
    }

    /// Consumes one interface event. Returns the new screen where a
    /// transition happened, `Ok(None)` where none did, and
    /// `Err(EmptyRoomName)` for a confirm with an empty room name. Events
    /// that belong to another screen than the current one are ignored.
    pub fn on_ui_event(&mut self, ev: &UiEvent) -> (r: Result<Option<Screen>, RoomError>)
        ensures
            r == ui_outcome(old(self)@, *ev),
            final(self)@ == flow_step(old(self)@, *ev),
            r matches Ok(Some(to)) ==> final(self)@.screen == to,
            r matches Ok(None) || r is Err ==> final(self)@.screen == old(self)@.screen,
            ev == UiEvent::Button(ButtonRole::Confirm, Interaction::Pressed)
                && old(self)@.room_name.len() == 0 ==> final(self)@ == old(self)@,
            ev == UiEvent::Button(ButtonRole::Confirm, Interaction::Pressed)
                && old(self)@.screen == Screen::CreateRoom
                && old(self)@.room_name.len() > 0 ==> final(self)@.screen == Screen::Lobby,
    {
        match ev {
            UiEvent::Button(role, Interaction::Pressed) => {
                match (self.screen, *role) {
                    (Screen::MainMenu, ButtonRole::Host) => {
                        self.request_transition(Screen::CreateRoom);
                        Ok(Some(Screen::CreateRoom))
                    },
                    (Screen::MainMenu, ButtonRole::Join) => {
                        self.request_transition(Screen::InGame);
                        Ok(Some(Screen::InGame))
                    },
                    (Screen::CreateRoom, ButtonRole::ToggleType) => {
                        self.room.toggle_type();
                        Ok(None)
                    },
                    (Screen::CreateRoom, ButtonRole::Confirm) => {
                        if self.room.room_name.as_str().unicode_len() == 0 {
                            Err(RoomError::EmptyRoomName)
                        } else {
                            self.request_transition(Screen::Lobby);
                            Ok(Some(Screen::Lobby))
                        }
                    },
                    _ => Ok(None),
                }
            },
            UiEvent::Button(_, _) => Ok(None),
            UiEvent::Text(k) => {
                if self.screen == Screen::CreateRoom {
                    self.room.handle_text_input(k);
                }
                Ok(None)
            },
        }
    }
}


/// The state after the events `evs`, applied in order.
pub open spec fn run_events(v: FlowView, evs: Seq<UiEvent>) -> FlowView
    decreases evs.len(),
{
    if evs.len() == 0 {
        v
    } else {
        run_events(flow_step(v, evs[0]), evs.drop_first())
    }
}

/// What `on_ui_event` returns for each of the events `evs`, applied in
/// order from state `v`.
pub open spec fn run_outcomes(v: FlowView, evs: Seq<UiEvent>) -> Seq<Result<Option<Screen>, RoomError>>
    decreases evs.len(),
{
    if evs.len() == 0 {
        Seq::empty()
    } else {
        seq![ui_outcome(v, evs[0])] + run_outcomes(flow_step(v, evs[0]), evs.drop_first())
    }
}

/// A press of each button of `roles`, in order.
pub open spec fn presses(roles: Seq<ButtonRole>) -> Seq<UiEvent> {
    roles.map_values(|r: ButtonRole| UiEvent::Button(r, Interaction::Pressed))
}

/// The screen reached by folding the transition table over `roles`, from
/// `screen` with a room name that is empty or not; the name is empty again
/// each time `CreateRoom` is entered.
pub open spec fn fold_table(screen: Screen, name_empty: bool, roles: Seq<ButtonRole>) -> Screen
    decreases roles.len(),
{
    if roles.len() == 0 {
        screen
    } else {
        match table(screen, name_empty, roles[0]) {
            Some(to) => fold_table(
                to,
                if to == Screen::CreateRoom {
                    true
                } else {
                    name_empty
                },
                roles.drop_first(),
            ),
            None => fold_table(screen, name_empty, roles.drop_first()),
        }
    }
}

impl FlowController {
    /// Consumes the events `evs` in order, as `on_ui_event` does one, and
    /// returns what each call returned. Where the events are button presses,
    /// the screen reached is the transition table folded over them.
    pub fn on_ui_events(&mut self, evs: &Vec<UiEvent>) -> (r: Vec<Result<Option<Screen>, RoomError>>)
        ensures
            final(self)@ == run_events(old(self)@, evs@),
            r@ == run_outcomes(old(self)@, evs@),
            forall|roles: Seq<ButtonRole>|
                evs@ == #[trigger] presses(roles) ==> fold_table(
                    old(self)@.screen,
                    old(self)@.room_name.len() == 0,
                    roles,
                ) == final(self)@.screen,
    {
        let ghost v0 = self@;
        let mut r: Vec<Result<Option<Screen>, RoomError>> = Vec::new();
        let mut k: usize = 0;
        proof {
            assert(evs@.subrange(0, evs@.len() as int) =~= evs@);
            assert(r@ + run_outcomes(self@, evs@) =~= run_outcomes(self@, evs@));
        }
        while k < evs.len()
            invariant
                k <= evs@.len(),
                run_events(v0, evs@) == run_events(self@, evs@.subrange(k as int, evs@.len() as int)),
                run_outcomes(v0, evs@) == r@ + run_outcomes(
                    self@,
                    evs@.subrange(k as int, evs@.len() as int),
                ),
            decreases evs@.len() - k,
        {
            let ghost before = self@;
            let ghost rest = evs@.subrange(k as int, evs@.len() as int);
            let o = self.on_ui_event(&evs[k]);
            proof {
                assert(rest[0] == evs@[k as int]);
                assert(rest.drop_first() =~= evs@.subrange(k + 1, evs@.len() as int));
                assert(r@.push(o) + run_outcomes(self@, rest.drop_first()) =~= r@ + run_outcomes(
                    before,
                    rest,
                ));
            }
            r.push(o);
            k = k + 1;
        }
        proof {
            let rest = evs@.subrange(k as int, evs@.len() as int);
            assert(rest =~= Seq::<UiEvent>::empty());
            assert(r@ + run_outcomes(self@, rest) =~= r@);
            assert forall|roles: Seq<ButtonRole>|
                evs@ == #[trigger] presses(roles) implies fold_table(
                v0.screen,
                v0.room_name.len() == 0,
                roles,
            ) == self@.screen by {
                lemma_presses_fold_table(v0, roles);
            }
        }
        r
    }
}

/// Pressing any sequence of buttons (Host, Join, Confirm, and toggles, which
/// change no screen) leads to the screen that folding the transition table
/// over the presses gives.
pub proof fn lemma_presses_fold_table(v: FlowView, roles: Seq<ButtonRole>)
    ensures
        run_events(v, presses(roles)).screen == fold_table(
            v.screen,
            v.room_name.len() == 0,
            roles,
        ),
    decreases roles.len(),
{
    if roles.len() > 0 {
        let next = flow_step(v, presses(roles)[0]);
        assert(presses(roles).drop_first() =~= presses(roles.drop_first()));
        lemma_presses_fold_table(next, roles.drop_first());
    }
}

} // verus!
