use lobby_core::clock::NANOS_PER_SECOND;
use lobby_core::roster::{add_players, greeting_system, greetings, SelectionTimer, GREETING_PERIOD_NANOS};

#[test]
fn roster_has_five_humans_and_am() {
    let r = add_players();
    let names: Vec<&str> = r.iter().map(|a| a.name.as_str()).collect();
    assert_eq!(names, vec!["Gorrister", "Benny", "Ellen", "Nimdok", "Ted", "AM"]);
    let synthetic: Vec<bool> = r.iter().map(|a| a.is_synthetic).collect();
    assert_eq!(synthetic, vec![false, false, false, false, false, true]);
}

#[test]
fn greetings_follow_roster_order() {
    let g = greetings(&add_players());
    assert_eq!(g[0], "hello Gorrister!");
    assert_eq!(g[5], "hello AM!");
    assert_eq!(g.len(), 6);
    assert!(greetings(&vec![]).is_empty());
}

#[test]
fn announcer_fires_once_per_period() {
    let roster = add_players();
    let mut t = SelectionTimer::new(GREETING_PERIOD_NANOS);
    assert!(greeting_system(&mut t, &roster, 2 * NANOS_PER_SECOND).is_empty());
    assert!(greeting_system(&mut t, &roster, 2 * NANOS_PER_SECOND).is_empty());
    let g = greeting_system(&mut t, &roster, NANOS_PER_SECOND);
    assert_eq!(g.len(), 6);
    assert_eq!(g[1], "hello Benny!");
    assert!(greeting_system(&mut t, &roster, NANOS_PER_SECOND).is_empty());
}

#[test]
fn announcer_fires_exactly_at_the_period() {
    let roster = add_players();
    let mut t = SelectionTimer::new(GREETING_PERIOD_NANOS);
    assert!(greeting_system(&mut t, &roster, GREETING_PERIOD_NANOS - 1).is_empty());
    assert_eq!(greeting_system(&mut t, &roster, 1).len(), 6);
    assert_eq!(greeting_system(&mut t, &roster, 3 * GREETING_PERIOD_NANOS).len(), 6);
    assert!(greeting_system(&mut t, &roster, 0).is_empty());
    assert_eq!(GREETING_PERIOD_NANOS, 5 * NANOS_PER_SECOND);
}
