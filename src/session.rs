//! The session context: every component of the game, driven one frame at a
//! time in a fixed order.
use vstd::prelude::*;
use crate::animation::{setup_sprite_animation, Player, PlayerAnimations};
use crate::flow::{flow_step, ui_outcome, FlowController, RoomError, Screen, UiEvent};
use crate::motion::{
    input_after_all, keyboard_events, keyboard_input, player_movement_state, state_after_all,
    PlayerState,
};
use crate::roster::{
    add_players, greeting, greeting_system, names_of, roster_names, Actor, SelectionTimer,
    GREETING_PERIOD_NANOS,
};
use crate::scenario::{
    consistent, effects, effects_after_tick, scenario_manager, tick_notices, AmActions, GameState,
    Notice,
};

verus! {

/// Everything one session holds, each part owned here and changed only
/// through the functions below.
pub struct Session {
    pub flow: FlowController,
    pub game_state: GameState,
    pub am_actions: AmActions,
    pub roster: Vec<Actor>,
    pub announcer: SelectionTimer,
    pub animations: Option<PlayerAnimations>,
    pub player: Option<Player>,
}

/// The keyboard state of one frame and the time it took.
#[derive(Debug, Clone, Copy, PartialEq, Eq, Structural)]
pub struct FrameInput {
    pub left_held: bool,
    pub right_held: bool,
    pub attack_pressed: bool,
    pub delta_nanos: u64,
}

/// What one frame reports: the scenario's notices and the greetings.
#[derive(Debug, Clone)]
pub struct FrameReport {
    pub notices: Vec<Notice>,
    pub greetings: Vec<String>,
}

/// A player just created on entering the game: idle, at its first frame
/// with a fresh frame timer, showing the idle animation.
pub open spec fn fresh_player(p: Option<Player>) -> bool {
    match p {
        Some(p) => p.state == PlayerState::Idle && p.anim.fresh() && p.wf(
            PlayerAnimations::spec_new(),
        ),
        None => false,
    }
}

impl Session {
    /// The game's entities exist exactly while the game screen is current,
    /// the player's animation is the one of its state, and modifiers are
    /// registered only while a scenario is alive.
    pub open spec fn wf(&self) -> bool {
        &&& (self.flow.screen == Screen::InGame) == (self.player is Some)
        &&& (self.player is Some) == (self.animations is Some)
        &&& (match self.animations {
            Some(a) => a.wf(),
            None => true,
        })
        &&& (match self.player {
            Some(p) => p.wf(self.animations.unwrap()),
            None => true,
        })
        &&& consistent(&self.game_state, &self.am_actions)
        &&& self.announcer.0.wf()
        &&& self.announcer.0.period() == GREETING_PERIOD_NANOS
    }

    /// A session at the main menu with the full roster, no scenario, and no
    /// game entities.
    pub fn new() -> (r: Session)
        ensures
            r.wf(),
            r.flow@.screen == Screen::MainMenu,
            r.flow@.room_name.len() == 0,
            names_of(r.roster@) == roster_names(),
            r.game_state.current_scenario is None,
            r.am_actions.active_modifiers@.len() == 0,
            r.announcer.0.elapsed() == 0,
    {
        Session {
            flow: FlowController::new(),
            game_state: GameState::new(),
            am_actions: AmActions::new(),
            roster: add_players(),
            announcer: SelectionTimer::new(GREETING_PERIOD_NANOS),
            animations: None,
            player: None,
        }
    }

    fn exit_hook(&mut self, from: Screen)
        requires
            from == Screen::InGame,
        ensures
            final(self).player is None,
            final(self).animations is None,
            final(self).flow == old(self).flow,
            final(self).game_state == old(self).game_state,
            final(self).am_actions == old(self).am_actions,
            final(self).roster == old(self).roster,
            final(self).announcer == old(self).announcer,
    {
        self.player = None;
        self.animations = None;
    }

    fn enter_hook(&mut self, to: Screen)
        requires
            to == Screen::InGame,
        ensures
            final(self).animations == Some(PlayerAnimations::spec_new()),
            fresh_player(final(self).player),
            final(self).flow == old(self).flow,
            final(self).game_state == old(self).game_state,
            final(self).am_actions == old(self).am_actions,
            final(self).roster == old(self).roster,
            final(self).announcer == old(self).announcer,
    {
        let (anims, player) = setup_sprite_animation();
        self.animations = Some(anims);
        self.player = Some(player);
    }

    /// Leaves the current screen for `to`: the exit hook of the screen left
    /// runs, then the enter hook of `to`. Entering the game creates its
    /// entities; leaving it removes them.
    pub fn request_transition(&mut self, to: Screen) -> (from: Screen)
        requires
            old(self).wf(),
        ensures
            final(self).wf(),
            from == old(self).flow.screen,
            final(self).flow@ == crate::flow::enter(old(self).flow@, to),
            to == Screen::InGame ==> fresh_player(final(self).player),
            final(self).game_state == old(self).game_state,
            final(self).am_actions == old(self).am_actions,
            final(self).roster == old(self).roster,
    {
        let from = self.flow.request_transition(to);
        if from == Screen::InGame {
            self.exit_hook(from);
        }
        if to == Screen::InGame {
            self.enter_hook(to);
        }
        from
    }

    /// Consumes one interface event, as `FlowController::on_ui_event` does,
    /// and runs the exit and enter hooks where the screen changed.
    pub fn on_ui_event(&mut self, ev: &UiEvent) -> (r: Result<Option<Screen>, RoomError>)
        requires
            old(self).wf(),
        ensures
            final(self).wf(),
            r == ui_outcome(old(self).flow@, *ev),
            final(self).flow@ == flow_step(old(self).flow@, *ev),
            r == Ok::<Option<Screen>, RoomError>(Some(Screen::InGame)) ==> fresh_player(
                final(self).player,
            ),
            final(self).game_state == old(self).game_state,
            final(self).am_actions == old(self).am_actions,
            final(self).roster == old(self).roster,
    {
        let from = self.flow.screen;
        let r = self.flow.on_ui_event(ev);
        match r {
            Ok(Some(to)) => {
                if from == Screen::InGame {
                    self.exit_hook(from);
                }
                if to == Screen::InGame {
                    self.enter_hook(to);
                }
            },
            _ => {},
        }
        r
    }

    /// One frame: the keyboard state becomes input events, they update the
    /// player's motion state, its animation advances, the scenario ticks (in
    /// the game only), and the announcer ticks.
    pub fn tick(&mut self, frame: FrameInput) -> (r: FrameReport)
        requires
            old(self).wf(),
        ensures
            final(self).wf(),
            final(self).flow == old(self).flow,
            final(self).roster == old(self).roster,
            final(self).animations == old(self).animations,
            match (old(self).player, final(self).player) {
                (Some(p0), Some(p1)) => {
                    let evs = keyboard_events(frame.left_held, frame.right_held, frame.attack_pressed);
                    &&& p1.state == state_after_all(p0.state, evs)
                    &&& p1.input == input_after_all(p0.input, evs)
                    &&& match old(self).animations.unwrap().spec_animation_for(p1.state) {
                        Some(a) => p1.anim.advanced_from(p0.anim, a, frame.delta_nanos),
                        None => p1.anim == p0.anim,
                    }
                },
                (None, None) => true,
                _ => false,
            },
            old(self).flow.screen == Screen::InGame ==> {
                let had = old(self).game_state.current_scenario is Some;
                let es = effects(old(self).am_actions.active_modifiers@);
                &&& r.notices@.map_values(|n: Notice| n@) == tick_notices(had, es, frame.delta_nanos)
                &&& effects(final(self).am_actions.active_modifiers@) == effects_after_tick(
                    had,
                    es,
                    frame.delta_nanos,
                )
            },
            old(self).flow.screen != Screen::InGame ==> {
                &&& r.notices@.len() == 0
                &&& final(self).game_state == old(self).game_state
                &&& final(self).am_actions == old(self).am_actions
            },
            final(self).announcer.0.elapsed() == (old(self).announcer.0.elapsed()
                + frame.delta_nanos) % (GREETING_PERIOD_NANOS as int),
            r.greetings@.len() == (if old(self).announcer.0.elapsed() + frame.delta_nanos
                >= GREETING_PERIOD_NANOS {
                old(self).roster@.len()
            } else {
                0
            }),
            forall|i: int|
                0 <= i < r.greetings@.len() ==> #[trigger] r.greetings@[i]@ == greeting(
                    old(self).roster@[i].name@,
                ),
    {
        let mut notices: Vec<Notice> = Vec::new();
        if self.flow.screen == Screen::InGame {
            let anims = self.animations.unwrap();
            let mut player = self.player.take().unwrap();
            let evs = keyboard_input(frame.left_held, frame.right_held, frame.attack_pressed);
            player_movement_state(&mut player.state, &mut player.input, &evs);
            player.advance(frame.delta_nanos, &anims);
            self.player = Some(player);
            notices = scenario_manager(&mut self.game_state, &mut self.am_actions, frame.delta_nanos);
        }
        let greetings = greeting_system(&mut self.announcer, &self.roster, frame.delta_nanos);
        FrameReport { notices, greetings }
    }
}

} // verus!
