use combat_sim::missile_test::{
    iteration_seed, MissileTestAction, MissileTestState, MISSILE_TEST_ITERATIONS,
    MISSILE_TEST_TICK_LIMIT,
};
use combat_sim::radar::{strongest_return, RadarReturn};
use combat_sim::rng::{gen_below, new_rng};
use combat_sim::schedule::schedule_order;
use combat_sim::scenario::{
    asteroid_variant, welcome_asteroid_variant, welcome_player_class, welcome_spawn_plan,
};
use combat_sim::ship::ShipClass;
use combat_sim::victory::Status;
use combat_sim::weapons::WeaponCycle;

#[test]
fn a_fresh_weapon_fires_at_once() {
    let mut g = WeaponCycle::new(30);
    assert!(g.ready());
    assert!(g.try_fire());
    assert!(!g.ready());
}

#[test]
fn firing_locks_the_weapon_for_the_whole_cycle() {
    let mut g = WeaponCycle::new(30);
    assert!(g.try_fire());
    for _ in 0..29 {
        g.tick();
        assert!(!g.ready());
        assert!(!g.try_fire());
    }
    g.tick();
    assert!(g.ready());
    assert!(g.try_fire());
}

#[test]
fn an_idle_weapon_stays_ready() {
    let mut g = WeaponCycle::new(5);
    g.tick();
    g.tick();
    assert!(g.ready());
}

#[test]
fn missile_test_maneuvers_once_per_second() {
    let mut st = MissileTestState::new();
    assert_eq!(st.step(true), MissileTestAction::FreshManeuver);
    for _ in 1..60 {
        assert_eq!(st.step(true), MissileTestAction::HoldManeuver);
    }
    assert_eq!(st.step(true), MissileTestAction::FreshManeuver);
}

#[test]
fn missile_test_restarts_when_the_target_dies() {
    let mut st = MissileTestState::new();
    st.step(true);
    st.step(true);
    assert_eq!(st.step(false), MissileTestAction::Restart);
    assert_eq!(st.iteration, 1);
    assert_eq!(st.tick_in_iteration, 1);
}

#[test]
fn missile_test_idles_after_the_last_iteration() {
    let mut st = MissileTestState { iteration: MISSILE_TEST_ITERATIONS, tick_in_iteration: 3 };
    assert_eq!(st.step(false), MissileTestAction::Idle);
    assert_eq!(st.iteration, MISSILE_TEST_ITERATIONS);
}

#[test]
fn missile_test_status_follows_the_budget() {
    let fresh = MissileTestState::new();
    assert_eq!(fresh.status(true), Status::Running);
    let over = MissileTestState { iteration: 2, tick_in_iteration: MISSILE_TEST_TICK_LIMIT + 1 };
    assert_eq!(over.status(true), Status::Failed);
    let done = MissileTestState { iteration: MISSILE_TEST_ITERATIONS, tick_in_iteration: 100 };
    assert_eq!(done.status(false), Status::Victory { team: 0 });
    assert_eq!(done.status(true), Status::Running);
}

#[test]
fn iteration_seeds_are_derived_from_the_match_seed() {
    assert_eq!(iteration_seed(7, 0), 7000);
    assert_eq!(iteration_seed(7, 3), 7003);
    assert_eq!(iteration_seed(123456, 9), 456009);
}

#[test]
fn seeded_draws_are_reproducible() {
    let mut a = new_rng(42);
    let mut b = new_rng(42);
    for _ in 0..32 {
        assert_eq!(gen_below(&mut a, 1000), gen_below(&mut b, 1000));
    }
}

#[test]
fn bounded_draws_stay_in_range() {
    let mut r = new_rng(7);
    assert_eq!(gen_below(&mut r, 1), 0);
    for _ in 0..64 {
        assert!(gen_below(&mut r, 30) < 30);
        assert!(asteroid_variant(&mut r) < 30);
    }
}

#[test]
fn welcome_scenario_draws_stay_in_their_sets() {
    let mut r = new_rng(11);
    for _ in 0..32 {
        let v = welcome_asteroid_variant(&mut r);
        assert!(v == 1 || v == 6 || v == 14);
        let c = welcome_player_class(&mut r);
        assert!(
            c == ShipClass::Fighter || c == ShipClass::Frigate || c == ShipClass::Cruiser
        );
    }
}

#[test]
fn radar_reports_the_strongest_return_in_the_beam() {
    let candidates = vec![
        RadarReturn { in_beam: true, strength_key: 10 },
        RadarReturn { in_beam: false, strength_key: 999 },
        RadarReturn { in_beam: true, strength_key: 40 },
        RadarReturn { in_beam: true, strength_key: 40 },
    ];
    assert_eq!(strongest_return(&candidates), Some(2));
    let silent = vec![
        RadarReturn { in_beam: false, strength_key: 3 },
        RadarReturn { in_beam: false, strength_key: 7 },
    ];
    assert_eq!(strongest_return(&silent), None);
    assert_eq!(strongest_return(&vec![]), None);
}

#[test]
fn float_bit_keys_preserve_the_strength_order() {
    // Non-negative IEEE 754 doubles compare the same way their bit
    // patterns do, which is what lets the sweep hand bit keys to the
    // verified selection.
    assert!(f64::to_bits(0.5) < f64::to_bits(2.0));
    assert!(f64::to_bits(0.0) < f64::to_bits(1e-300));
    let strong = RadarReturn { in_beam: true, strength_key: f64::to_bits(2.5) };
    let weak = RadarReturn { in_beam: true, strength_key: f64::to_bits(0.25) };
    assert_eq!(strongest_return(&vec![weak, strong]), Some(1));
}

#[test]
fn agents_are_scheduled_in_ascending_handle_order() {
    let handles = vec![5u64, 3, 9, 3, 1];
    assert_eq!(schedule_order(&handles), vec![1u64, 3, 3, 5, 9]);
    assert_eq!(schedule_order(&vec![]), Vec::<u64>::new());
}

#[test]
fn welcome_spawn_plan_tops_the_world_up_to_twenty() {
    let mut r = new_rng(3);
    let plan = welcome_spawn_plan(&mut r, 17);
    assert_eq!(plan.len(), 3);
    for v in &plan {
        assert!(*v == 1 || *v == 6 || *v == 14);
    }
    assert_eq!(welcome_spawn_plan(&mut r, 20).len(), 0);
    assert_eq!(welcome_spawn_plan(&mut r, 25).len(), 0);
    assert_eq!(welcome_spawn_plan(&mut r, 0).len(), 20);
}
