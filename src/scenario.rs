//! The per-session scenario and the registry of its active modifiers.
use vstd::prelude::*;
use crate::clock::NANOS_PER_SECOND;

verus! {

/// A challenge with a name and an objective.
#[derive(Debug, Clone)]
pub struct Scenario {
    pub name: String,
    pub objective: String,
}

/// An effect attached to the active scenario.
#[derive(Debug, Clone)]
pub struct Modifier {
    pub effect: String,
}

/// The session's scenario, if one is alive, and the rounds played.
#[derive(Debug)]
pub struct GameState {
    pub current_scenario: Option<Scenario>,
    pub rounds_completed: u32,
}

/// The modifiers in force, in the order they were added.
#[derive(Debug)]
pub struct AmActions {
    pub active_modifiers: Vec<Modifier>,
}

/// What a scenario tick reports, in the order it happened.
#[derive(Debug, Clone)]
pub enum Notice {
    ScenarioStarted { name: String, objective: String },
    ApplyingModifier(String),
    ScenarioReset,
}

/// The abstract form of a notice.
pub enum NoticeView {
    ScenarioStarted(Seq<char>, Seq<char>),
    ApplyingModifier(Seq<char>),
    ScenarioReset,
}

impl View for Notice {
    type V = NoticeView;

    open spec fn view(&self) -> NoticeView {
        match self {
            Notice::ScenarioStarted { name, objective } => NoticeView::ScenarioStarted(
                name@,
                objective@,
            ),
            Notice::ApplyingModifier(e) => NoticeView::ApplyingModifier(e@),
            Notice::ScenarioReset => NoticeView::ScenarioReset,
        }
    }
}

/// A tick whose elapsed time is above this many nanoseconds (ten seconds)
/// ends the scenario.
pub const SCENARIO_RESET_NANOS: u64 = 10 * NANOS_PER_SECOND;

/// Name of the scenario that a tick starts.
pub open spec fn pit_name() -> Seq<char> {
    "The Pit"@
}

/// Objective of the scenario that a tick starts.
pub open spec fn pit_objective() -> Seq<char> {
    "Escape the pit using limited supplies."@
}

/// Effect of the modifier added with each new scenario.
pub open spec fn pit_effect() -> Seq<char> {
    "Limited visibility"@
}

/// The effects of a list of modifiers, in order.
pub open spec fn effects(ms: Seq<Modifier>) -> Seq<Seq<char>> {
    ms.map_values(|m: Modifier| m.effect@)
}

/// One "applying" notice per effect, in order.
pub open spec fn applying(es: Seq<Seq<char>>) -> Seq<NoticeView> {
    es.map_values(|e: Seq<char>| NoticeView::ApplyingModifier(e))
}

impl GameState {
    /// No scenario yet and no rounds played.
    pub fn new() -> (r: GameState)
        ensures
            r.current_scenario is None,
            r.rounds_completed == 0,
    {
        GameState { current_scenario: None, rounds_completed: 0 }
    }
}

impl AmActions {
    /// No modifiers.
    pub fn new() -> (r: AmActions)
        ensures
            r.active_modifiers@.len() == 0,
    {
        AmActions { active_modifiers: Vec::new() }
    }

    /// Appends a modifier.
    pub fn add_modifier(&mut self, m: Modifier)
        ensures
            final(self).active_modifiers@ == old(self).active_modifiers@.push(m),
    {
        self.active_modifiers.push(m);
    }

    /// Removes every modifier.
    pub fn clear_modifiers(&mut self)
        ensures
            final(self).active_modifiers@.len() == 0,
    {
        self.active_modifiers.clear();
    }

    /// One "applying" notice per modifier, in order.
    pub fn apply_notices(&self) -> (r: Vec<Notice>)
        ensures
            r@.map_values(|n: Notice| n@) == applying(effects(self.active_modifiers@)),
    {
        let mut r: Vec<Notice> = Vec::new();
        let mut i: usize = 0;
        while i < self.active_modifiers.len()
            invariant
                i <= self.active_modifiers@.len(),
                r@.len() == i,
                forall|j: int|
                    0 <= j < i ==> #[trigger] r@[j]@ == NoticeView::ApplyingModifier(
                        self.active_modifiers@[j].effect@,
                    ),
            decreases self.active_modifiers@.len() - i,
        {
            let e = self.active_modifiers[i].effect.clone();
            r.push(Notice::ApplyingModifier(e));
            i = i + 1;
        }
        proof {
            assert(r@.map_values(|n: Notice| n@) =~= applying(effects(self.active_modifiers@)));
        }
        r
    }
}

/// The registry holds modifiers only while a scenario is alive.
pub open spec fn consistent(gs: &GameState, am: &AmActions) -> bool {
    gs.current_scenario is None ==> am.active_modifiers@.len() == 0
}

/// The modifiers after a tick: one more where it started a scenario, none
/// where its elapsed time was above the threshold.
pub open spec fn effects_after_tick(
    had_scenario: bool,
    es: Seq<Seq<char>>,
    delta_nanos: u64,
) -> Seq<Seq<char>> {
    if delta_nanos > SCENARIO_RESET_NANOS {
        Seq::empty()
    } else if had_scenario {
        es
    } else {
        es.push(pit_effect())
    }
}

/// What a tick reports: the start of a scenario where none was alive, one
/// "applying" notice per modifier then in force, and the reset where the
/// elapsed time was above the threshold.
pub open spec fn tick_notices(had_scenario: bool, es: Seq<Seq<char>>, delta_nanos: u64) -> Seq<
    NoticeView,
> {
    let started = if had_scenario {
        Seq::empty()
    } else {
        seq![NoticeView::ScenarioStarted(pit_name(), pit_objective())]
    };
    let in_force = if had_scenario {
        es
    } else {
        es.push(pit_effect())
    };
    let reset = if delta_nanos > SCENARIO_RESET_NANOS {
        seq![NoticeView::ScenarioReset]
    } else {
        Seq::empty()
    };
    started + applying(in_force) + reset
}

/// One scenario tick with `delta_nanos` elapsed in this frame. Where no
/// scenario is alive it starts "The Pit" and adds its modifier; it then
/// reports each modifier in force; where this frame's elapsed time is above
/// ten seconds it ends the scenario and clears every modifier.
pub fn scenario_manager(game_state: &mut GameState, am_actions: &mut AmActions, delta_nanos: u64) -> (r: Vec<Notice>)
    ensures
        r@.map_values(|n: Notice| n@) == tick_notices(
            old(game_state).current_scenario is Some,
            effects(old(am_actions).active_modifiers@),
            delta_nanos,
        ),
        effects(final(am_actions).active_modifiers@) == effects_after_tick(
            old(game_state).current_scenario is Some,
            effects(old(am_actions).active_modifiers@),
            delta_nanos,
        ),
        final(game_state).rounds_completed == old(game_state).rounds_completed,
        delta_nanos > SCENARIO_RESET_NANOS ==> final(game_state).current_scenario is None
            && final(am_actions).active_modifiers@.len() == 0,
        delta_nanos <= SCENARIO_RESET_NANOS ==> match old(game_state).current_scenario {
            Some(s) => final(game_state).current_scenario == Some(s),
            None => match final(game_state).current_scenario {
                Some(s) => s.name@ == pit_name() && s.objective@ == pit_objective(),
                None => false,
            },
        },
        old(game_state).current_scenario is None && old(am_actions).active_modifiers@.len() == 0
            && delta_nanos <= SCENARIO_RESET_NANOS ==> final(game_state).current_scenario is Some
            && final(am_actions).active_modifiers@.len() == 1,
        consistent(old(game_state), old(am_actions)) ==> consistent(
            final(game_state),
            final(am_actions),
        ),
{
    let ghost es0 = effects(am_actions.active_modifiers@);
    let ghost had = game_state.current_scenario is Some;
    let mut notices: Vec<Notice> = Vec::new();
    if game_state.current_scenario.is_none() {
        let s = Scenario {
            name: String::from_str("The Pit"),
            objective: String::from_str("Escape the pit using limited supplies."),
        };
        notices.push(Notice::ScenarioStarted { name: s.name.clone(), objective: s.objective.clone() });
        game_state.current_scenario = Some(s);
        let m = Modifier { effect: String::from_str("Limited visibility") };
        am_actions.add_modifier(m);
        proof {
            assert(effects(am_actions.active_modifiers@) =~= es0.push(pit_effect()));
        }
    }
    let mut applied = am_actions.apply_notices();
    notices.append(&mut applied);
    if delta_nanos > SCENARIO_RESET_NANOS {
        notices.push(Notice::ScenarioReset);
        game_state.current_scenario = None;
        am_actions.clear_modifiers();
    }
    proof {
        let started: Seq<NoticeView> = if had {
            Seq::empty()
        } else {
            seq![NoticeView::ScenarioStarted(pit_name(), pit_objective())]
        };
        let in_force = if had {
            es0
        } else {
            es0.push(pit_effect())
        };
        let reset: Seq<NoticeView> = if delta_nanos > SCENARIO_RESET_NANOS {
            seq![NoticeView::ScenarioReset]
        } else {
            Seq::empty()
        };
        assert(notices@.map_values(|n: Notice| n@) =~= started + applying(in_force) + reset);
        assert(effects(am_actions.active_modifiers@) =~= effects_after_tick(had, es0, delta_nanos));
    }
    notices
}

} // verus!
