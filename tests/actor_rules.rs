use chott::actor::{Actor, ActorAction, ActorFlag, ActorManager, ActorState};
use chott::environment::WorldTime;
use chott::pages::{load_page_graph, PageId};

fn actor(id: &str, location: &str, awake: bool, fatigue: u8, flags: Vec<ActorFlag>) -> Actor {
    Actor {
        id: id.to_string(),
        name: id.to_string(),
        location: PageId::from_str(location),
        state: ActorState { health: 10, awake, fatigue, target: None },
        flags,
    }
}

fn noon() -> WorldTime {
    WorldTime { hour: 12, _minute: 0 }
}

fn midnight() -> WorldTime {
    WorldTime { hour: 0, _minute: 0 }
}

#[test]
fn tired_actor_sleeps_whatever_else_holds() {
    let graph = load_page_graph();
    let prey = actor("prey", "route-1", true, 0, vec![ActorFlag::Organic]);
    for awake in [true, false] {
        for time in [noon(), midnight()] {
            let hunter = actor(
                "hunter",
                "route-1",
                awake,
                20,
                vec![ActorFlag::Predatory, ActorFlag::Nocturnal],
            );
            let action = hunter.decide(&time, &[&prey], &graph);
            assert!(matches!(action, ActorAction::Sleep));
        }
    }
    let worn_out = actor("worn", "route-1", true, 255, vec![]);
    assert!(matches!(worn_out.decide(&noon(), &[], &graph), ActorAction::Sleep));
}

#[test]
fn diurnal_sleeper_wakes_by_day() {
    let graph = load_page_graph();
    let sleeper = actor("s", "small-town", false, 5, vec![ActorFlag::Organic]);
    assert!(matches!(sleeper.decide(&noon(), &[], &graph), ActorAction::WakeUp));
    assert!(matches!(sleeper.decide(&midnight(), &[], &graph), ActorAction::Idle));
}

#[test]
fn nocturnal_sleeper_wakes_by_night() {
    let graph = load_page_graph();
    let owl = actor("owl", "small-town", false, 0, vec![ActorFlag::Nocturnal]);
    assert!(matches!(owl.decide(&midnight(), &[], &graph), ActorAction::WakeUp));
    assert!(matches!(owl.decide(&WorldTime { hour: 18, _minute: 30 }, &[], &graph), ActorAction::WakeUp));
    assert!(matches!(owl.decide(&noon(), &[], &graph), ActorAction::Idle));
}

#[test]
fn predator_attacks_first_organic_peer() {
    let graph = load_page_graph();
    let hunter = actor("hunter", "route-1", true, 3, vec![ActorFlag::Predatory]);
    let rock = actor("rock", "route-1", true, 0, vec![ActorFlag::CanSpeak]);
    let elsewhere = actor("far", "green-city", true, 0, vec![ActorFlag::Organic]);
    let first = actor("first", "route-1", true, 0, vec![ActorFlag::Organic]);
    let second = actor("second", "route-1", true, 0, vec![ActorFlag::Organic]);
    match hunter.decide(&noon(), &[&rock, &elsewhere, &first, &second], &graph) {
        ActorAction::Attack(id) => assert_eq!(id, "first"),
        _ => panic!("expected an attack"),
    }
}

#[test]
fn predator_without_prey_does_not_attack() {
    let graph = load_page_graph();
    let hunter = actor("hunter", "route-1", true, 0, vec![ActorFlag::Predatory, ActorFlag::Organic]);
    let twin = actor("hunter", "route-1", true, 0, vec![ActorFlag::Organic]);
    let rock = actor("rock", "route-1", true, 0, vec![]);
    for _ in 0..50 {
        let action = hunter.decide(&noon(), &[&twin, &rock], &graph);
        assert!(matches!(action, ActorAction::Idle | ActorAction::MoveTo(_)));
    }
}

#[test]
fn sleeping_predator_does_not_attack() {
    let graph = load_page_graph();
    let hunter = actor("hunter", "route-1", false, 0, vec![ActorFlag::Predatory]);
    let prey = actor("prey", "route-1", true, 0, vec![ActorFlag::Organic]);
    assert!(matches!(hunter.decide(&midnight(), &[&prey], &graph), ActorAction::Idle));
}

#[test]
fn default_movement_follows_the_draws() {
    let graph = load_page_graph();
    let walker = actor("w", "route-1", true, 0, vec![ActorFlag::Organic]);
    match walker.decide_with_draws(&noon(), &[], &graph, 0, 1) {
        ActorAction::MoveTo(p) => assert_eq!(p.as_string(), "small-town"),
        _ => panic!("expected a move"),
    }
    match walker.decide_with_draws(&noon(), &[], &graph, 200, 0) {
        ActorAction::MoveTo(p) => assert_eq!(p.as_string(), "green-city"),
        _ => panic!("expected a move"),
    }
    assert!(matches!(walker.decide_with_draws(&noon(), &[], &graph, 1, 0), ActorAction::Idle));
    assert!(matches!(walker.decide_with_draws(&noon(), &[], &graph, 0, 2), ActorAction::Idle));
    let lost = actor("l", "nowhere", true, 0, vec![]);
    assert!(matches!(lost.decide_with_draws(&noon(), &[], &graph, 0, 0), ActorAction::Idle));
}

#[test]
fn default_movement_stays_on_exits() {
    let graph = load_page_graph();
    let walker = actor("w", "route-1", true, 0, vec![ActorFlag::Organic]);
    for _ in 0..500 {
        match walker.decide(&noon(), &[], &graph) {
            ActorAction::Idle => {}
            ActorAction::MoveTo(p) => {
                let t = p.as_string();
                assert!(t == "small-town" || t == "green-city");
            }
            _ => panic!("unexpected action"),
        }
    }
}

#[test]
fn has_flag_checks_membership() {
    let a = actor("a", "route-1", true, 0, vec![ActorFlag::Organic, ActorFlag::CanSpeak]);
    assert!(a.has_flag(ActorFlag::Organic));
    assert!(a.has_flag(ActorFlag::CanSpeak));
    assert!(!a.has_flag(ActorFlag::Predatory));
    assert!(!actor("b", "x", true, 0, vec![]).has_flag(ActorFlag::Organic));
}

#[test]
fn idle_drains_fatigue_to_zero_and_stops() {
    let mut a = actor("a", "route-1", true, 3, vec![]);
    a.apply_action(ActorAction::Idle);
    assert_eq!(a.state.fatigue, 2);
    for _ in 0..10 {
        let before = a.state.fatigue;
        a.apply_action(ActorAction::Idle);
        assert!(a.state.fatigue <= before);
    }
    assert_eq!(a.state.fatigue, 0);
    assert!(a.state.awake);
}

#[test]
fn move_sets_location_and_adds_four() {
    let mut a = actor("a", "route-1", true, 7, vec![]);
    a.apply_action(ActorAction::MoveTo(PageId::from_str("green-city")));
    assert_eq!(a.location.as_string(), "green-city");
    assert_eq!(a.state.fatigue, 11);
    let mut b = actor("b", "route-1", true, 253, vec![]);
    b.apply_action(ActorAction::MoveTo(PageId::from_str("small-town")));
    assert_eq!(b.state.fatigue, 255);
    assert_eq!(b.location.as_string(), "small-town");
}

#[test]
fn wake_up_takes_two_above_two() {
    for f in [0u8, 1, 2] {
        let mut a = actor("a", "route-1", false, f, vec![]);
        a.apply_action(ActorAction::WakeUp);
        assert_eq!(a.state.fatigue, f);
        assert!(a.state.awake);
    }
    let mut a = actor("a", "route-1", false, 10, vec![]);
    a.apply_action(ActorAction::WakeUp);
    assert_eq!(a.state.fatigue, 8);
    assert!(a.state.awake);
}

#[test]
fn sleep_and_attack_effects() {
    let mut a = actor("a", "route-1", true, 0, vec![]);
    a.apply_action(ActorAction::Sleep);
    assert!(!a.state.awake);
    assert_eq!(a.state.fatigue, 0);
    let mut b = actor("b", "route-1", true, 21, vec![]);
    b.apply_action(ActorAction::Sleep);
    assert_eq!(b.state.fatigue, 20);
    let mut c = actor("c", "route-1", true, 252, vec![]);
    c.apply_action(ActorAction::Attack("x".to_string()));
    assert_eq!(c.state.fatigue, 255);
    assert_eq!(c.location.as_string(), "route-1");
}

#[test]
fn roster_predator_attacks_organic_neighbour() {
    let graph = load_page_graph();
    let mut manager = ActorManager::new();
    assert_eq!(manager.actors.len(), 4);
    let wolf = actor("wolf", "route-1", true, 0, vec![ActorFlag::Predatory]);
    manager.actors[3] = wolf;
    let joey = manager.actors[1].clone();
    let action = manager.actors[3].decide(&noon(), &[&joey], &graph);
    match &action {
        ActorAction::Attack(id) => assert_eq!(id, "joey"),
        _ => panic!("expected an attack"),
    }
    manager.actors[3].apply_action(action);
    assert_eq!(manager.actors[3].state.fatigue, 6);
}

#[test]
fn move_at_nineteen_then_sleeps() {
    let graph = load_page_graph();
    let mut a = actor("a", "route-1", true, 19, vec![ActorFlag::Organic]);
    a.apply_action(ActorAction::MoveTo(PageId::from_str("green-city")));
    assert_eq!(a.state.fatigue, 23);
    assert!(matches!(a.decide(&noon(), &[], &graph), ActorAction::Sleep));
}
