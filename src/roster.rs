//! The participants of a session and the announcer that greets them.
use vstd::prelude::*;
use crate::clock::{lemma_mod_below, FrameTimer, NANOS_PER_SECOND};

verus! {

/// A participant: a named human, or the synthetic one.
#[derive(Debug, Clone)]
pub struct Actor {
    pub name: String,
    pub is_synthetic: bool,
}

/// Names of the session's participants, in roster order; the last one is
/// the synthetic participant.
pub open spec fn roster_names() -> Seq<Seq<char>> {
    seq!["Gorrister"@, "Benny"@, "Ellen"@, "Nimdok"@, "Ted"@, "AM"@]
}

/// The names of a list of actors, in order.
pub open spec fn names_of(actors: Seq<Actor>) -> Seq<Seq<char>> {
    actors.map_values(|a: Actor| a.name@)
}

/// The greeting line for one name.
pub open spec fn greeting(name: Seq<char>) -> Seq<char> {
    "hello "@ + name + "!"@
}

/// Time between two rounds of greetings: five seconds.
pub const GREETING_PERIOD_NANOS: u64 = 5 * NANOS_PER_SECOND;

fn actor(name: &str, is_synthetic: bool) -> (r: Actor)
    ensures
        r.name@ == name@,
        r.is_synthetic == is_synthetic,
{
    Actor { name: String::from_str(name), is_synthetic }
}

/// The session's roster: five humans, then the synthetic "AM".
pub fn add_players() -> (r: Vec<Actor>)
    ensures
        names_of(r@) == roster_names(),
        forall|i: int| 0 <= i < r@.len() ==> #[trigger] r@[i].is_synthetic == (i == 5),
{
    let mut r: Vec<Actor> = Vec::new();
    r.push(actor("Gorrister", false));
    r.push(actor("Benny", false));
    r.push(actor("Ellen", false));
    r.push(actor("Nimdok", false));
    r.push(actor("Ted", false));
    r.push(actor("AM", true));
    proof {
        assert(names_of(r@) =~= roster_names());
    }
    r
}

/// One greeting line per actor, in roster order.
pub fn greetings(roster: &Vec<Actor>) -> (r: Vec<String>)
    ensures
        r@.len() == roster@.len(),
        forall|i: int| 0 <= i < r@.len() ==> #[trigger] r@[i]@ == greeting(roster@[i].name@),
{
    let mut r: Vec<String> = Vec::new();
    let mut i: usize = 0;
    while i < roster.len()
        invariant
            i <= roster@.len(),
            r@.len() == i,
            forall|j: int| 0 <= j < i ==> #[trigger] r@[j]@ == greeting(roster@[j].name@),
        decreases roster@.len() - i,
    {
        let mut line = String::from_str("hello ");
        line.append(roster[i].name.as_str());
        line.append("!");
        r.push(line);
        i = i + 1;
    }
    r
}

/// The repeating timer that paces the greetings.
pub struct SelectionTimer(pub FrameTimer);

impl SelectionTimer {
    /// A timer that fires every `period_nanos`, with nothing elapsed yet.
    pub fn new(period_nanos: u64) -> (r: SelectionTimer)
        requires
            period_nanos > 0,
        ensures
            r.0.period() == period_nanos,
            r.0.elapsed() == 0,
            r.0.wf(),
    {
        SelectionTimer(FrameTimer::repeating(period_nanos))
    }
}

/// Advances the timer by `delta_nanos`; where that reaches its period,
/// greets every actor in roster order, else greets nobody.
pub fn greeting_system(timer: &mut SelectionTimer, roster: &Vec<Actor>, delta_nanos: u64) -> (r: Vec<String>)
    requires
        old(timer).0.wf(),
    ensures
        final(timer).0.period() == old(timer).0.period(),
        final(timer).0.elapsed() == (old(timer).0.elapsed() + delta_nanos) % (old(
            timer,
        ).0.period() as int),
        final(timer).0.wf(),
        r@.len() == (if old(timer).0.elapsed() + delta_nanos >= old(timer).0.period() {
            roster@.len()
        } else {
            0
        }),
        forall|i: int| 0 <= i < r@.len() ==> #[trigger] r@[i]@ == greeting(roster@[i].name@),
{
    let ghost e = timer.0.elapsed();
    let ghost p = timer.0.period();
    timer.0.tick(delta_nanos);
    proof {
        lemma_mod_below(e + delta_nanos, p as int);
    }
    if timer.0.finished() {
        greetings(roster)
    } else {
        Vec::new()
    }
}

} // verus!
