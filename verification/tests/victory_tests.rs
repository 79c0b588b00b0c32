use combat_sim::ship::{ShipClass, ShipSummary};
use combat_sim::missile_test::MissileTestState;
use combat_sim::scenario::{scenario_status, ScenarioKind, TickFacts};
use combat_sim::victory::{
    check_capital_ship_tournament_victory, check_tournament_victory, check_tutorial_victory,
    check_victory_with_filter, match_over, Status, VictoryFilter,
};
use combat_sim::MAX_TICKS;

fn ship(team: i32, class: ShipClass) -> ShipSummary {
    ShipSummary { team, class, health: 100 }
}

#[test]
fn empty_world_is_a_draw() {
    let ships: Vec<ShipSummary> = vec![];
    assert_eq!(check_victory_with_filter(VictoryFilter::Tournament, &ships, 0), Status::Draw);
    assert_eq!(check_tutorial_victory(&ships, 0), Status::Draw);
}

#[test]
fn lone_team_wins_at_once() {
    let ships = vec![ship(1, ShipClass::Fighter), ship(1, ShipClass::Cruiser)];
    assert_eq!(
        check_victory_with_filter(VictoryFilter::Tournament, &ships, 0),
        Status::Victory { team: 1 }
    );
}

#[test]
fn two_teams_keep_running_before_the_cap() {
    let ships = vec![ship(0, ShipClass::Fighter), ship(1, ShipClass::Fighter)];
    assert_eq!(check_tournament_victory(&ships, 0), Status::Running);
    assert_eq!(check_tournament_victory(&ships, MAX_TICKS - 2), Status::Running);
}

#[test]
fn two_teams_draw_at_the_cap() {
    let ships = vec![ship(0, ShipClass::Fighter), ship(1, ShipClass::Fighter)];
    assert_eq!(check_tournament_victory(&ships, MAX_TICKS - 1), Status::Draw);
    assert_eq!(check_tournament_victory(&ships, MAX_TICKS), Status::Draw);
}

#[test]
fn tutorial_ignores_missiles_and_torpedoes() {
    let ships = vec![
        ship(0, ShipClass::Fighter),
        ship(1, ShipClass::Missile),
        ship(1, ShipClass::Torpedo),
    ];
    assert_eq!(check_tutorial_victory(&ships, 5), Status::Victory { team: 0 });
}

#[test]
fn tutorial_fails_when_the_enemy_survives_alone() {
    let ships = vec![ship(1, ShipClass::Asteroid)];
    assert_eq!(check_tutorial_victory(&ships, 5), Status::Failed);
}

#[test]
fn tournament_counts_only_fighting_classes_of_the_first_two_teams() {
    let ships = vec![
        ship(0, ShipClass::Fighter),
        ship(1, ShipClass::Asteroid),
        ship(1, ShipClass::Missile),
        ship(2, ShipClass::Fighter),
        ship(9, ShipClass::Cruiser),
    ];
    assert_eq!(check_tournament_victory(&ships, 0), Status::Victory { team: 0 });
}

#[test]
fn capital_rule_ignores_fighters() {
    let ships = vec![ship(0, ShipClass::Fighter), ship(1, ShipClass::Frigate)];
    assert_eq!(check_capital_ship_tournament_victory(&ships, 0), Status::Victory { team: 1 });
    assert_eq!(check_tournament_victory(&ships, 0), Status::Running);
}

#[test]
fn evaluators_never_fail_outside_tutorials() {
    let ships = vec![ship(1, ShipClass::Cruiser)];
    let r = check_tournament_victory(&ships, 0);
    assert_ne!(r, Status::Failed);
    assert_eq!(r, Status::Victory { team: 1 });
}

#[test]
fn scenario_statuses_follow_their_rules() {
    let facts = TickFacts {
        tick: 10,
        bullet_count: 0,
        missile_test: MissileTestState { iteration: 0, tick_in_iteration: 0 },
        missile_target_alive: true,
        hit_target: false,
    };
    let nobody: Vec<ShipSummary> = vec![];
    assert_eq!(scenario_status(ScenarioKind::Test, &nobody, facts), Status::Running);
    assert_eq!(scenario_status(ScenarioKind::Welcome, &nobody, facts), Status::Running);
    assert_eq!(
        scenario_status(ScenarioKind::BulletStress, &nobody, facts),
        Status::Victory { team: 0 }
    );
    let busy = TickFacts { bullet_count: 3, ..facts };
    assert_eq!(scenario_status(ScenarioKind::BulletStress, &nobody, busy), Status::Running);
    let hit = TickFacts { hit_target: true, ..facts };
    assert_eq!(
        scenario_status(ScenarioKind::Tutorial02, &nobody, hit),
        Status::Victory { team: 0 }
    );
    assert_eq!(scenario_status(ScenarioKind::Tutorial03, &nobody, facts), Status::Running);
    let few = vec![ship(0, ShipClass::Missile)];
    assert_eq!(
        scenario_status(ScenarioKind::MissileStress, &few, facts),
        Status::Victory { team: 0 }
    );
    let lone = vec![ship(1, ShipClass::Asteroid)];
    assert_eq!(scenario_status(ScenarioKind::Tutorial01, &lone, facts), Status::Failed);
    let fleet = vec![ship(0, ShipClass::Cruiser), ship(1, ShipClass::Fighter)];
    assert_eq!(
        scenario_status(ScenarioKind::Fleet, &fleet, facts),
        Status::Victory { team: 0 }
    );
    assert_eq!(scenario_status(ScenarioKind::FighterDuel, &fleet, facts), Status::Running);
    assert_eq!(scenario_status(ScenarioKind::MissileTest, &nobody, facts), Status::Running);
}

#[test]
fn driver_stops_on_resolution_or_cap() {
    assert!(!match_over(Status::Running, 0));
    assert!(!match_over(Status::Running, MAX_TICKS - 1));
    assert!(match_over(Status::Running, MAX_TICKS));
    assert!(match_over(Status::Victory { team: 0 }, 3));
    assert!(match_over(Status::Draw, 3));
    assert!(match_over(Status::Failed, 3));
}
