use combat_sim::scenario::{
    human_name, initial_code, is_tournament, list, load, load_safe, name, next_scenario, solution,
    solution_codes, Code, ScenarioKind,
};

#[test]
fn loads_every_listed_name() {
    let names = list();
    assert_eq!(names.len(), 19);
    for n in &names {
        let k = load_safe(n).expect("every listed name loads");
        assert_eq!(&name(k), n);
    }
}

#[test]
fn unknown_names_are_refused() {
    assert!(load_safe("").is_none());
    assert!(load_safe("frigate duel").is_none());
    assert!(load_safe("tutorial12").is_none());
    assert!(load_safe("Welcome").is_none());
}

#[test]
fn load_returns_the_named_scenario() {
    assert_eq!(load("welcome"), ScenarioKind::Welcome);
    assert_eq!(load("missile_test"), ScenarioKind::MissileTest);
    assert_eq!(load("asteroid-stress"), ScenarioKind::AsteroidStress);
    assert_eq!(load("belt"), ScenarioKind::Belt);
}

#[test]
fn picker_order_is_stable() {
    let names = list();
    assert_eq!(names[0], "welcome");
    assert_eq!(names[1], "tutorial01");
    assert_eq!(names[11], "tutorial11");
    assert_eq!(names[12], "gunnery");
    assert_eq!(names[13], "fighter_duel");
    assert_eq!(names[18], "belt");
}

#[test]
fn human_names_match() {
    assert_eq!(human_name(ScenarioKind::Tutorial01), "Tutorial 1: Guns");
    assert_eq!(human_name(ScenarioKind::Tutorial03), "Tutorial 3: Acceleration #2");
    assert_eq!(human_name(ScenarioKind::Gunnery), "Gunnery");
    assert_eq!(human_name(ScenarioKind::Basic), "basic");
    assert_eq!(human_name(ScenarioKind::FighterDuel), "Fighter Duel");
}

#[test]
fn tutorials_chain_in_order() {
    assert_eq!(next_scenario(ScenarioKind::Tutorial01).as_deref(), Some("tutorial02"));
    assert_eq!(next_scenario(ScenarioKind::Tutorial10).as_deref(), Some("tutorial11"));
    assert_eq!(next_scenario(ScenarioKind::Tutorial11), None);
    assert_eq!(next_scenario(ScenarioKind::Basic), None);
    assert_eq!(next_scenario(ScenarioKind::Belt), None);
}

#[test]
fn tournament_flags() {
    assert!(is_tournament(ScenarioKind::PrimitiveDuel));
    assert!(is_tournament(ScenarioKind::FighterDuel));
    assert!(is_tournament(ScenarioKind::FrigateDuel));
    assert!(is_tournament(ScenarioKind::CruiserDuel));
    assert!(is_tournament(ScenarioKind::Furball));
    assert!(is_tournament(ScenarioKind::Fleet));
    assert!(is_tournament(ScenarioKind::Belt));
    assert!(!is_tournament(ScenarioKind::Welcome));
    assert!(!is_tournament(ScenarioKind::Tutorial05));
    assert!(!is_tournament(ScenarioKind::FrigateVsCruiser));
}

#[test]
fn duel_rosters_pit_the_player_against_the_reference() {
    let codes = initial_code(ScenarioKind::FighterDuel);
    assert_eq!(codes.len(), 2);
    assert!(matches!(&codes[0], Code::Inert));
    assert!(matches!(&codes[1], Code::Builtin(s) if s == "reference"));
}

#[test]
fn tutorial_rosters_carry_initial_and_enemy_programs() {
    let codes = initial_code(ScenarioKind::Tutorial05);
    assert_eq!(codes.len(), 2);
    assert!(matches!(&codes[0], Code::Builtin(s) if s == "tutorial/tutorial05.initial"));
    assert!(matches!(&codes[1], Code::Builtin(s) if s == "tutorial/tutorial05.enemy"));
    let early = initial_code(ScenarioKind::Tutorial01);
    assert_eq!(early.len(), 1);
    assert!(matches!(&early[0], Code::Builtin(s) if s == "tutorial/tutorial01.initial"));
}

#[test]
fn solutions_match() {
    assert!(matches!(solution(ScenarioKind::Gunnery), Code::Builtin(s) if s == "gunnery"));
    assert!(matches!(solution(ScenarioKind::MissileTest), Code::Builtin(s) if s == "missile"));
    assert!(
        matches!(solution(ScenarioKind::Tutorial07), Code::Builtin(s) if s == "tutorial/tutorial07.solution")
    );
    assert!(matches!(solution(ScenarioKind::Belt), Code::Builtin(s) if s == "reference"));
    assert!(matches!(solution(ScenarioKind::Basic), Code::Inert));
}

#[test]
fn solution_codes_replace_team_zero() {
    let codes = solution_codes(ScenarioKind::FighterDuel);
    assert_eq!(codes.len(), 2);
    assert!(matches!(&codes[0], Code::Builtin(s) if s == "reference"));
    assert!(matches!(&codes[1], Code::Builtin(s) if s == "reference"));
    let tutorial = solution_codes(ScenarioKind::Tutorial02);
    assert_eq!(tutorial.len(), 1);
    assert!(matches!(&tutorial[0], Code::Builtin(s) if s == "tutorial/tutorial02.solution"));
}
