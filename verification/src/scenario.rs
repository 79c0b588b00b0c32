//! The scenario registry: the closed set of match configurations, their
//! stable string names, their default and solution agent programs, and
//! their tournament flags.

use vstd::prelude::*;

use crate::missile_test::{missile_test_status, MissileTestState};
use crate::rng::gen_below;
use crate::ship::{ShipClass, ShipSummary};
use crate::victory::{
    check_capital_ship_tournament_victory, check_tournament_victory, check_tutorial_victory,
    eval_tutorial, eval_victory, Status, VictoryFilter,
};

verus! {

/// Agent code assigned to one team at match start.
#[derive(Clone, Debug)]
pub enum Code {
    /// No program: the ship stays inert.
    Inert,
    /// One of the built-in programs, by name.
    Builtin(String),
}

/// The mathematical shape of a `Code` value.
pub enum CodeView {
    Inert,
    Builtin(Seq<char>),
}

impl View for Code {
    type V = CodeView;

    open spec fn view(&self) -> CodeView {
        match self {
            Code::Inert => CodeView::Inert,
            Code::Builtin(name) => CodeView::Builtin(name@),
        }
    }
}

/// The views of a roster of codes, indexed by team.
pub open spec fn codes_view(s: Seq<Code>) -> Seq<CodeView> {
    s.map_values(|c: Code| c@)
}

/// One match configuration from the closed scenario set.
#[derive(Clone, Copy, PartialEq, Eq, Structural, Debug)]
pub enum ScenarioKind {
    Test,
    Basic,
    Gunnery,
    MissileTest,
    AsteroidStress,
    BulletStress,
    MissileStress,
    Welcome,
    FrigateVsCruiser,
    CruiserVsFrigate,
    FrigatePointDefense,
    Tutorial01,
    Tutorial02,
    Tutorial03,
    Tutorial04,
    Tutorial05,
    Tutorial06,
    Tutorial07,
    Tutorial08,
    Tutorial09,
    Tutorial10,
    Tutorial11,
    PrimitiveDuel,
    FighterDuel,
    FrigateDuel,
    CruiserDuel,
    Furball,
    Fleet,
    Belt,
}

/// The stable string name of a scenario.
pub open spec fn name_of(k: ScenarioKind) -> Seq<char> {
    match k {
        ScenarioKind::Test => "test"@,
        ScenarioKind::Basic => "basic"@,
        ScenarioKind::Gunnery => "gunnery"@,
        ScenarioKind::MissileTest => "missile_test"@,
        ScenarioKind::AsteroidStress => "asteroid-stress"@,
        ScenarioKind::BulletStress => "bullet-stress"@,
        ScenarioKind::MissileStress => "missile-stress"@,
        ScenarioKind::Welcome => "welcome"@,
        ScenarioKind::FrigateVsCruiser => "frigate_vs_cruiser"@,
        ScenarioKind::CruiserVsFrigate => "cruiser_vs_frigate"@,
        ScenarioKind::FrigatePointDefense => "frigate_point_defense"@,
        ScenarioKind::Tutorial01 => "tutorial01"@,
        ScenarioKind::Tutorial02 => "tutorial02"@,
        ScenarioKind::Tutorial03 => "tutorial03"@,
        ScenarioKind::Tutorial04 => "tutorial04"@,
        ScenarioKind::Tutorial05 => "tutorial05"@,
        ScenarioKind::Tutorial06 => "tutorial06"@,
        ScenarioKind::Tutorial07 => "tutorial07"@,
        ScenarioKind::Tutorial08 => "tutorial08"@,
        ScenarioKind::Tutorial09 => "tutorial09"@,
        ScenarioKind::Tutorial10 => "tutorial10"@,
        ScenarioKind::Tutorial11 => "tutorial11"@,
        ScenarioKind::PrimitiveDuel => "primitive_duel"@,
        ScenarioKind::FighterDuel => "fighter_duel"@,
        ScenarioKind::FrigateDuel => "frigate_duel"@,
        ScenarioKind::CruiserDuel => "cruiser_duel"@,
        ScenarioKind::Furball => "furball"@,
        ScenarioKind::Fleet => "fleet"@,
        ScenarioKind::Belt => "belt"@,
    }
}

/// Whether a string is the name of some scenario.
pub open spec fn is_scenario_name(s: Seq<char>) -> bool {
    ||| s == "test"@
    ||| s == "basic"@
    ||| s == "gunnery"@
    ||| s == "missile_test"@
    ||| s == "asteroid-stress"@
    ||| s == "bullet-stress"@
    ||| s == "missile-stress"@
    ||| s == "welcome"@
    ||| s == "frigate_vs_cruiser"@
    ||| s == "cruiser_vs_frigate"@
    ||| s == "frigate_point_defense"@
    ||| s == "tutorial01"@
    ||| s == "tutorial02"@
    ||| s == "tutorial03"@
    ||| s == "tutorial04"@
    ||| s == "tutorial05"@
    ||| s == "tutorial06"@
    ||| s == "tutorial07"@
    ||| s == "tutorial08"@
    ||| s == "tutorial09"@
    ||| s == "tutorial10"@
    ||| s == "tutorial11"@
    ||| s == "primitive_duel"@
    ||| s == "fighter_duel"@
    ||| s == "frigate_duel"@
    ||| s == "cruiser_duel"@
    ||| s == "furball"@
    ||| s == "fleet"@
    ||| s == "belt"@
}

/// Relies on std's `str` equality (`<str as PartialEq>::eq`): two string
/// slices compare equal exactly when their characters are equal.
#[verifier::external_body]
fn str_eq(a: &str, b: &str) -> (r: bool)
    ensures
        r == (a@ == b@),
{
    a == b
}

/// Look a scenario up by name; unknown names yield nothing.
pub fn load_safe(name: &str) -> (r: Option<ScenarioKind>)
    ensures
        r is Some <==> is_scenario_name(name@),
        r matches Some(k) ==> name_of(k) == name@,
{
    if str_eq(name, "test") {
        Some(ScenarioKind::Test)
    } else if str_eq(name, "basic") {
        Some(ScenarioKind::Basic)
    } else if str_eq(name, "gunnery") {
        Some(ScenarioKind::Gunnery)
    } else if str_eq(name, "missile_test") {
        Some(ScenarioKind::MissileTest)
    } else if str_eq(name, "asteroid-stress") {
        Some(ScenarioKind::AsteroidStress)
    } else if str_eq(name, "bullet-stress") {
        Some(ScenarioKind::BulletStress)
    } else if str_eq(name, "missile-stress") {
        Some(ScenarioKind::MissileStress)
    } else if str_eq(name, "welcome") {
        Some(ScenarioKind::Welcome)
    } else if str_eq(name, "frigate_vs_cruiser") {
        Some(ScenarioKind::FrigateVsCruiser)
    } else if str_eq(name, "cruiser_vs_frigate") {
        Some(ScenarioKind::CruiserVsFrigate)
    } else if str_eq(name, "frigate_point_defense") {
        Some(ScenarioKind::FrigatePointDefense)
    } else if str_eq(name, "tutorial01") {
        Some(ScenarioKind::Tutorial01)
    } else if str_eq(name, "tutorial02") {
        Some(ScenarioKind::Tutorial02)
    } else if str_eq(name, "tutorial03") {
        Some(ScenarioKind::Tutorial03)
    } else if str_eq(name, "tutorial04") {
        Some(ScenarioKind::Tutorial04)
    } else if str_eq(name, "tutorial05") {
        Some(ScenarioKind::Tutorial05)
    } else if str_eq(name, "tutorial06") {
        Some(ScenarioKind::Tutorial06)
    } else if str_eq(name, "tutorial07") {
        Some(ScenarioKind::Tutorial07)
    } else if str_eq(name, "tutorial08") {
        Some(ScenarioKind::Tutorial08)
    } else if str_eq(name, "tutorial09") {
        Some(ScenarioKind::Tutorial09)
    } else if str_eq(name, "tutorial10") {
        Some(ScenarioKind::Tutorial10)
    } else if str_eq(name, "tutorial11") {
        Some(ScenarioKind::Tutorial11)
    } else if str_eq(name, "primitive_duel") {
        Some(ScenarioKind::PrimitiveDuel)
    } else if str_eq(name, "fighter_duel") {
        Some(ScenarioKind::FighterDuel)
    } else if str_eq(name, "frigate_duel") {
        Some(ScenarioKind::FrigateDuel)
    } else if str_eq(name, "cruiser_duel") {
        Some(ScenarioKind::CruiserDuel)
    } else if str_eq(name, "furball") {
        Some(ScenarioKind::Furball)
    } else if str_eq(name, "fleet") {
        Some(ScenarioKind::Fleet)
    } else if str_eq(name, "belt") {
        Some(ScenarioKind::Belt)
    } else {
        None
    }
}

/// Look a scenario up by a name known to be valid. Unknown names are a
/// hard error to the caller and are excluded here.
pub fn load(name: &str) -> (r: ScenarioKind)
    requires
        is_scenario_name(name@),
    ensures
        name_of(r) == name@,
{
    match load_safe(name) {
        Some(k) => k,
        None => {
            proof {
                assert(false);
            }
            ScenarioKind::Test
        },
    }
}

/// The stable string name of a scenario.
pub fn name(k: ScenarioKind) -> (r: String)
    ensures
        r@ == name_of(k),
{
    match k {
        ScenarioKind::Test => "test".to_owned(),
        ScenarioKind::Basic => "basic".to_owned(),
        ScenarioKind::Gunnery => "gunnery".to_owned(),
        ScenarioKind::MissileTest => "missile_test".to_owned(),
        ScenarioKind::AsteroidStress => "asteroid-stress".to_owned(),
        ScenarioKind::BulletStress => "bullet-stress".to_owned(),
        ScenarioKind::MissileStress => "missile-stress".to_owned(),
        ScenarioKind::Welcome => "welcome".to_owned(),
        ScenarioKind::FrigateVsCruiser => "frigate_vs_cruiser".to_owned(),
        ScenarioKind::CruiserVsFrigate => "cruiser_vs_frigate".to_owned(),
        ScenarioKind::FrigatePointDefense => "frigate_point_defense".to_owned(),
        ScenarioKind::Tutorial01 => "tutorial01".to_owned(),
        ScenarioKind::Tutorial02 => "tutorial02".to_owned(),
        ScenarioKind::Tutorial03 => "tutorial03".to_owned(),
        ScenarioKind::Tutorial04 => "tutorial04".to_owned(),
        ScenarioKind::Tutorial05 => "tutorial05".to_owned(),
        ScenarioKind::Tutorial06 => "tutorial06".to_owned(),
        ScenarioKind::Tutorial07 => "tutorial07".to_owned(),
        ScenarioKind::Tutorial08 => "tutorial08".to_owned(),
        ScenarioKind::Tutorial09 => "tutorial09".to_owned(),
        ScenarioKind::Tutorial10 => "tutorial10".to_owned(),
        ScenarioKind::Tutorial11 => "tutorial11".to_owned(),
        ScenarioKind::PrimitiveDuel => "primitive_duel".to_owned(),
        ScenarioKind::FighterDuel => "fighter_duel".to_owned(),
        ScenarioKind::FrigateDuel => "frigate_duel".to_owned(),
        ScenarioKind::CruiserDuel => "cruiser_duel".to_owned(),
        ScenarioKind::Furball => "furball".to_owned(),
        ScenarioKind::Fleet => "fleet".to_owned(),
        ScenarioKind::Belt => "belt".to_owned(),
    }
}

/// The name a scenario shows to a player; most scenarios show their
/// string name unchanged.
pub open spec fn human_name_of(k: ScenarioKind) -> Seq<char> {
    match k {
        ScenarioKind::Gunnery => "Gunnery"@,
        ScenarioKind::Welcome => "Welcome"@,
        ScenarioKind::Tutorial01 => "Tutorial 1: Guns"@,
        ScenarioKind::Tutorial02 => "Tutorial 2: Acceleration"@,
        ScenarioKind::Tutorial03 => "Tutorial 3: Acceleration #2"@,
        ScenarioKind::Tutorial04 => "Tutorial 4: Rotation"@,
        ScenarioKind::Tutorial05 => "Tutorial 5: Deflection"@,
        ScenarioKind::Tutorial06 => "Tutorial 6: Radar"@,
        ScenarioKind::Tutorial07 => "Tutorial 7: Squadron"@,
        ScenarioKind::Tutorial08 => "Tutorial 8: Search"@,
        ScenarioKind::Tutorial09 => "Tutorial 9: Missiles"@,
        ScenarioKind::Tutorial10 => "Tutorial 10: Frigate"@,
        ScenarioKind::Tutorial11 => "Tutorial 11: Cruiser"@,
        ScenarioKind::PrimitiveDuel => "Primitive Duel"@,
        ScenarioKind::FighterDuel => "Fighter Duel"@,
        ScenarioKind::FrigateDuel => "Frigate Duel"@,
        ScenarioKind::CruiserDuel => "Cruiser Duel"@,
        ScenarioKind::Furball => "Furball"@,
        ScenarioKind::Fleet => "Fleet"@,
        ScenarioKind::Belt => "Belt"@,
        _ => name_of(k),
    }
}

/// The name a scenario shows to a player.
pub fn human_name(k: ScenarioKind) -> (r: String)
    ensures
        r@ == human_name_of(k),
{
    match k {
        ScenarioKind::Gunnery => "Gunnery".to_owned(),
        ScenarioKind::Welcome => "Welcome".to_owned(),
        ScenarioKind::Tutorial01 => "Tutorial 1: Guns".to_owned(),
        ScenarioKind::Tutorial02 => "Tutorial 2: Acceleration".to_owned(),
        ScenarioKind::Tutorial03 => "Tutorial 3: Acceleration #2".to_owned(),
        ScenarioKind::Tutorial04 => "Tutorial 4: Rotation".to_owned(),
        ScenarioKind::Tutorial05 => "Tutorial 5: Deflection".to_owned(),
        ScenarioKind::Tutorial06 => "Tutorial 6: Radar".to_owned(),
        ScenarioKind::Tutorial07 => "Tutorial 7: Squadron".to_owned(),
        ScenarioKind::Tutorial08 => "Tutorial 8: Search".to_owned(),
        ScenarioKind::Tutorial09 => "Tutorial 9: Missiles".to_owned(),
        ScenarioKind::Tutorial10 => "Tutorial 10: Frigate".to_owned(),
        ScenarioKind::Tutorial11 => "Tutorial 11: Cruiser".to_owned(),
        ScenarioKind::PrimitiveDuel => "Primitive Duel".to_owned(),
        ScenarioKind::FighterDuel => "Fighter Duel".to_owned(),
        ScenarioKind::FrigateDuel => "Frigate Duel".to_owned(),
        ScenarioKind::CruiserDuel => "Cruiser Duel".to_owned(),
        ScenarioKind::Furball => "Furball".to_owned(),
        ScenarioKind::Fleet => "Fleet".to_owned(),
        ScenarioKind::Belt => "Belt".to_owned(),
        _ => name(k),
    }
}

/// Which scenarios count for tournament rankings.
pub open spec fn is_tournament_kind(k: ScenarioKind) -> bool {
    match k {
        ScenarioKind::PrimitiveDuel => true,
        ScenarioKind::FighterDuel => true,
        ScenarioKind::FrigateDuel => true,
        ScenarioKind::CruiserDuel => true,
        ScenarioKind::Furball => true,
        ScenarioKind::Fleet => true,
        ScenarioKind::Belt => true,
        _ => false,
    }
}

/// Whether a scenario counts for tournament rankings.
pub fn is_tournament(k: ScenarioKind) -> (r: bool)
    ensures
        r == is_tournament_kind(k),
{
    match k {
        ScenarioKind::PrimitiveDuel => true,
        ScenarioKind::FighterDuel => true,
        ScenarioKind::FrigateDuel => true,
        ScenarioKind::CruiserDuel => true,
        ScenarioKind::Furball => true,
        ScenarioKind::Fleet => true,
        ScenarioKind::Belt => true,
        _ => false,
    }
}

/// The scenario a player is sent to after winning this one: each
/// tutorial but the last leads to the next.
pub open spec fn next_name_of(k: ScenarioKind) -> Option<Seq<char>> {
    match k {
        ScenarioKind::Tutorial01 => Some("tutorial02"@),
        ScenarioKind::Tutorial02 => Some("tutorial03"@),
        ScenarioKind::Tutorial03 => Some("tutorial04"@),
        ScenarioKind::Tutorial04 => Some("tutorial05"@),
        ScenarioKind::Tutorial05 => Some("tutorial06"@),
        ScenarioKind::Tutorial06 => Some("tutorial07"@),
        ScenarioKind::Tutorial07 => Some("tutorial08"@),
        ScenarioKind::Tutorial08 => Some("tutorial09"@),
        ScenarioKind::Tutorial09 => Some("tutorial10"@),
        ScenarioKind::Tutorial10 => Some("tutorial11"@),
        _ => None,
    }
}

/// The scenario a player is sent to after winning this one.
pub fn next_scenario(k: ScenarioKind) -> (r: Option<String>)
    ensures
        r is Some <==> next_name_of(k) is Some,
        next_name_of(k) matches Some(t) ==> r matches Some(s) && s@ == t,
{
    match k {
        ScenarioKind::Tutorial01 => Some("tutorial02".to_owned()),
        ScenarioKind::Tutorial02 => Some("tutorial03".to_owned()),
        ScenarioKind::Tutorial03 => Some("tutorial04".to_owned()),
        ScenarioKind::Tutorial04 => Some("tutorial05".to_owned()),
        ScenarioKind::Tutorial05 => Some("tutorial06".to_owned()),
        ScenarioKind::Tutorial06 => Some("tutorial07".to_owned()),
        ScenarioKind::Tutorial07 => Some("tutorial08".to_owned()),
        ScenarioKind::Tutorial08 => Some("tutorial09".to_owned()),
        ScenarioKind::Tutorial09 => Some("tutorial10".to_owned()),
        ScenarioKind::Tutorial10 => Some("tutorial11".to_owned()),
        _ => None,
    }
}

/// Every next-scenario name leads back into the registry.
pub proof fn lemma_next_scenario_valid(k: ScenarioKind)
    ensures
        next_name_of(k) matches Some(t) ==> is_scenario_name(t),
{
}

/// The program each team starts with, indexed by team.
pub open spec fn initial_code_of(k: ScenarioKind) -> Seq<CodeView> {
    match k {
        ScenarioKind::MissileStress => seq![
            CodeView::Builtin("reference"@),
            CodeView::Builtin("reference"@),
        ],
        ScenarioKind::Welcome => seq![CodeView::Inert, CodeView::Inert],
        ScenarioKind::FrigateVsCruiser => seq![
            CodeView::Builtin("reference"@),
            CodeView::Builtin("reference"@),
        ],
        ScenarioKind::CruiserVsFrigate => seq![
            CodeView::Builtin("reference"@),
            CodeView::Builtin("reference"@),
        ],
        ScenarioKind::FrigatePointDefense => seq![
            CodeView::Inert,
            CodeView::Builtin("reference"@),
        ],
        ScenarioKind::Tutorial01 => seq![CodeView::Builtin("tutorial/tutorial01.initial"@)],
        ScenarioKind::Tutorial02 => seq![CodeView::Builtin("tutorial/tutorial02.initial"@)],
        ScenarioKind::Tutorial03 => seq![CodeView::Builtin("tutorial/tutorial03.initial"@)],
        ScenarioKind::Tutorial04 => seq![CodeView::Builtin("tutorial/tutorial04.initial"@)],
        ScenarioKind::Tutorial05 => seq![
            CodeView::Builtin("tutorial/tutorial05.initial"@),
            CodeView::Builtin("tutorial/tutorial05.enemy"@),
        ],
        ScenarioKind::Tutorial06 => seq![
            CodeView::Builtin("tutorial/tutorial06.initial"@),
            CodeView::Builtin("tutorial/tutorial06.enemy"@),
        ],
        ScenarioKind::Tutorial07 => seq![
            CodeView::Builtin("tutorial/tutorial07.initial"@),
            CodeView::Builtin("tutorial/tutorial07.enemy"@),
        ],
        ScenarioKind::Tutorial08 => seq![
            CodeView::Builtin("tutorial/tutorial08.initial"@),
            CodeView::Builtin("tutorial/tutorial08.enemy"@),
        ],
        ScenarioKind::Tutorial09 => seq![
            CodeView::Builtin("tutorial/tutorial09.initial"@),
            CodeView::Builtin("tutorial/tutorial09.enemy"@),
        ],
        ScenarioKind::Tutorial10 => seq![
            CodeView::Builtin("tutorial/tutorial10.initial"@),
            CodeView::Builtin("tutorial/tutorial10.enemy"@),
        ],
        ScenarioKind::Tutorial11 => seq![
            CodeView::Builtin("tutorial/tutorial11.initial"@),
            CodeView::Builtin("tutorial/tutorial11.enemy"@),
        ],
        ScenarioKind::PrimitiveDuel => seq![CodeView::Inert, CodeView::Builtin("reference"@)],
        ScenarioKind::FighterDuel => seq![CodeView::Inert, CodeView::Builtin("reference"@)],
        ScenarioKind::FrigateDuel => seq![CodeView::Inert, CodeView::Builtin("reference"@)],
        ScenarioKind::CruiserDuel => seq![CodeView::Inert, CodeView::Builtin("reference"@)],
        ScenarioKind::Furball => seq![CodeView::Inert, CodeView::Builtin("reference"@)],
        ScenarioKind::Fleet => seq![CodeView::Inert, CodeView::Builtin("reference"@)],
        ScenarioKind::Belt => seq![CodeView::Inert, CodeView::Builtin("reference"@)],
        _ => seq![CodeView::Inert],
    }
}

/// The published solution program for team 0.
pub open spec fn solution_of(k: ScenarioKind) -> CodeView {
    match k {
        ScenarioKind::Gunnery => CodeView::Builtin("gunnery"@),
        ScenarioKind::MissileTest => CodeView::Builtin("missile"@),
        ScenarioKind::Welcome => CodeView::Builtin("reference"@),
        ScenarioKind::FrigateVsCruiser => CodeView::Builtin("reference"@),
        ScenarioKind::CruiserVsFrigate => CodeView::Builtin("reference"@),
        ScenarioKind::Tutorial01 => CodeView::Builtin("tutorial/tutorial01.solution"@),
        ScenarioKind::Tutorial02 => CodeView::Builtin("tutorial/tutorial02.solution"@),
        ScenarioKind::Tutorial03 => CodeView::Builtin("tutorial/tutorial03.solution"@),
        ScenarioKind::Tutorial04 => CodeView::Builtin("tutorial/tutorial04.solution"@),
        ScenarioKind::Tutorial05 => CodeView::Builtin("tutorial/tutorial05.solution"@),
        ScenarioKind::Tutorial06 => CodeView::Builtin("tutorial/tutorial06.solution"@),
        ScenarioKind::Tutorial07 => CodeView::Builtin("tutorial/tutorial07.solution"@),
        ScenarioKind::Tutorial08 => CodeView::Builtin("tutorial/tutorial08.solution"@),
        ScenarioKind::Tutorial09 => CodeView::Builtin("tutorial/tutorial09.solution"@),
        ScenarioKind::Tutorial10 => CodeView::Builtin("tutorial/tutorial10.solution"@),
        ScenarioKind::Tutorial11 => CodeView::Builtin("tutorial/tutorial11.solution"@),
        ScenarioKind::PrimitiveDuel => CodeView::Builtin("reference"@),
        ScenarioKind::FighterDuel => CodeView::Builtin("reference"@),
        ScenarioKind::FrigateDuel => CodeView::Builtin("reference"@),
        ScenarioKind::CruiserDuel => CodeView::Builtin("reference"@),
        ScenarioKind::Furball => CodeView::Builtin("reference"@),
        ScenarioKind::Fleet => CodeView::Builtin("reference"@),
        ScenarioKind::Belt => CodeView::Builtin("reference"@),
        _ => CodeView::Inert,
    }
}

fn builtin(name: &str) -> (c: Code)
    ensures
        c@ == CodeView::Builtin(name@),
{
    Code::Builtin(name.to_owned())
}

fn reference_ai() -> (c: Code)
    ensures
        c@ == CodeView::Builtin("reference"@),
{
    builtin("reference")
}

/// The program each team starts with, indexed by team.
pub fn initial_code(k: ScenarioKind) -> (r: Vec<Code>)
    ensures
        codes_view(r@) == initial_code_of(k),
        r@.len() >= 1,
{
    let mut v: Vec<Code> = Vec::new();
    match k {
        ScenarioKind::MissileStress => {
            v.push(reference_ai());
            v.push(reference_ai());
        },
        ScenarioKind::Welcome => {
            v.push(Code::Inert);
            v.push(Code::Inert);
        },
        ScenarioKind::FrigateVsCruiser => {
            v.push(reference_ai());
            v.push(reference_ai());
        },
        ScenarioKind::CruiserVsFrigate => {
            v.push(reference_ai());
            v.push(reference_ai());
        },
        ScenarioKind::FrigatePointDefense => {
            v.push(Code::Inert);
            v.push(reference_ai());
        },
        ScenarioKind::Tutorial01 => {
            v.push(builtin("tutorial/tutorial01.initial"));
        },
        ScenarioKind::Tutorial02 => {
            v.push(builtin("tutorial/tutorial02.initial"));
        },
        ScenarioKind::Tutorial03 => {
            v.push(builtin("tutorial/tutorial03.initial"));
        },
        ScenarioKind::Tutorial04 => {
            v.push(builtin("tutorial/tutorial04.initial"));
        },
        ScenarioKind::Tutorial05 => {
            v.push(builtin("tutorial/tutorial05.initial"));
            v.push(builtin("tutorial/tutorial05.enemy"));
        },
        ScenarioKind::Tutorial06 => {
            v.push(builtin("tutorial/tutorial06.initial"));
            v.push(builtin("tutorial/tutorial06.enemy"));
        },
        ScenarioKind::Tutorial07 => {
            v.push(builtin("tutorial/tutorial07.initial"));
            v.push(builtin("tutorial/tutorial07.enemy"));
        },
        ScenarioKind::Tutorial08 => {
            v.push(builtin("tutorial/tutorial08.initial"));
            v.push(builtin("tutorial/tutorial08.enemy"));
        },
        ScenarioKind::Tutorial09 => {
            v.push(builtin("tutorial/tutorial09.initial"));
            v.push(builtin("tutorial/tutorial09.enemy"));
        },
        ScenarioKind::Tutorial10 => {
            v.push(builtin("tutorial/tutorial10.initial"));
            v.push(builtin("tutorial/tutorial10.enemy"));
        },
        ScenarioKind::Tutorial11 => {
            v.push(builtin("tutorial/tutorial11.initial"));
            v.push(builtin("tutorial/tutorial11.enemy"));
        },
        ScenarioKind::PrimitiveDuel => {
            v.push(Code::Inert);
            v.push(reference_ai());
        },
        ScenarioKind::FighterDuel => {
            v.push(Code::Inert);
            v.push(reference_ai());
        },
        ScenarioKind::FrigateDuel => {
            v.push(Code::Inert);
            v.push(reference_ai());
        },
        ScenarioKind::CruiserDuel => {
            v.push(Code::Inert);
            v.push(reference_ai());
        },
        ScenarioKind::Furball => {
            v.push(Code::Inert);
            v.push(reference_ai());
        },
        ScenarioKind::Fleet => {
            v.push(Code::Inert);
            v.push(reference_ai());
        },
        ScenarioKind::Belt => {
            v.push(Code::Inert);
            v.push(reference_ai());
        },
        _ => {
            v.push(Code::Inert);
        },
    }
    proof {
        assert(codes_view(v@) =~= initial_code_of(k));
    }
    v
}

/// The published solution program for team 0.
pub fn solution(k: ScenarioKind) -> (r: Code)
    ensures
        r@ == solution_of(k),
{
    match k {
        ScenarioKind::Gunnery => builtin("gunnery"),
        ScenarioKind::MissileTest => builtin("missile"),
        ScenarioKind::Welcome => reference_ai(),
        ScenarioKind::FrigateVsCruiser => reference_ai(),
        ScenarioKind::CruiserVsFrigate => reference_ai(),
        ScenarioKind::Tutorial01 => builtin("tutorial/tutorial01.solution"),
        ScenarioKind::Tutorial02 => builtin("tutorial/tutorial02.solution"),
        ScenarioKind::Tutorial03 => builtin("tutorial/tutorial03.solution"),
        ScenarioKind::Tutorial04 => builtin("tutorial/tutorial04.solution"),
        ScenarioKind::Tutorial05 => builtin("tutorial/tutorial05.solution"),
        ScenarioKind::Tutorial06 => builtin("tutorial/tutorial06.solution"),
        ScenarioKind::Tutorial07 => builtin("tutorial/tutorial07.solution"),
        ScenarioKind::Tutorial08 => builtin("tutorial/tutorial08.solution"),
        ScenarioKind::Tutorial09 => builtin("tutorial/tutorial09.solution"),
        ScenarioKind::Tutorial10 => builtin("tutorial/tutorial10.solution"),
        ScenarioKind::Tutorial11 => builtin("tutorial/tutorial11.solution"),
        ScenarioKind::PrimitiveDuel => reference_ai(),
        ScenarioKind::FighterDuel => reference_ai(),
        ScenarioKind::FrigateDuel => reference_ai(),
        ScenarioKind::CruiserDuel => reference_ai(),
        ScenarioKind::Furball => reference_ai(),
        ScenarioKind::Fleet => reference_ai(),
        ScenarioKind::Belt => reference_ai(),
        _ => Code::Inert,
    }
}

/// The roster actually run when showing the published solution: the
/// initial roster with team 0's program replaced by the solution.
pub fn solution_codes(k: ScenarioKind) -> (r: Vec<Code>)
    ensures
        codes_view(r@) == initial_code_of(k).update(0, solution_of(k)),
{
    let mut codes = initial_code(k);
    let sol = solution(k);
    codes.set(0, sol);
    proof {
        assert(codes_view(codes@) =~= initial_code_of(k).update(0, solution_of(k)));
    }
    codes
}

/// The names shown in the scenario picker, in order: the welcome
/// scenario, the tutorials, then gunnery and the tournament scenarios.
pub open spec fn listed_names() -> Seq<Seq<char>> {
    seq![
        "welcome"@,
        "tutorial01"@,
        "tutorial02"@,
        "tutorial03"@,
        "tutorial04"@,
        "tutorial05"@,
        "tutorial06"@,
        "tutorial07"@,
        "tutorial08"@,
        "tutorial09"@,
        "tutorial10"@,
        "tutorial11"@,
        "gunnery"@,
        "fighter_duel"@,
        "frigate_duel"@,
        "cruiser_duel"@,
        "furball"@,
        "fleet"@,
        "belt"@,
    ]
}

/// The names shown in the scenario picker.
pub fn list() -> (r: Vec<String>)
    ensures
        r@.len() == listed_names().len(),
        forall|i: int| 0 <= i < r@.len() ==> r@[i]@ == listed_names()[i],
{
    let mut v: Vec<String> = Vec::new();
    v.push("welcome".to_owned());
    v.push("tutorial01".to_owned());
    v.push("tutorial02".to_owned());
    v.push("tutorial03".to_owned());
    v.push("tutorial04".to_owned());
    v.push("tutorial05".to_owned());
    v.push("tutorial06".to_owned());
    v.push("tutorial07".to_owned());
    v.push("tutorial08".to_owned());
    v.push("tutorial09".to_owned());
    v.push("tutorial10".to_owned());
    v.push("tutorial11".to_owned());
    v.push("gunnery".to_owned());
    v.push("fighter_duel".to_owned());
    v.push("frigate_duel".to_owned());
    v.push("cruiser_duel".to_owned());
    v.push("furball".to_owned());
    v.push("fleet".to_owned());
    v.push("belt".to_owned());
    v
}

/// What the status rule of each scenario reads of one tick, besides the
/// live ships: counts, the missile-test driver, and the acceleration
/// tutorials' target flag.
#[derive(Clone, Copy, PartialEq, Eq, Structural, Debug)]
pub struct TickFacts {
    pub tick: u32,
    pub bullet_count: usize,
    pub missile_test: MissileTestState,
    pub missile_target_alive: bool,
    pub hit_target: bool,
}

/// Each scenario's status rule, as a function of the live ships and the
/// tick's facts.
pub open spec fn scenario_status_of(
    k: ScenarioKind,
    ships: Seq<ShipSummary>,
    facts: TickFacts,
) -> Status {
    match k {
        ScenarioKind::Test => Status::Running,
        ScenarioKind::Welcome => Status::Running,
        ScenarioKind::FrigatePointDefense => Status::Running,
        ScenarioKind::Basic => eval_victory(VictoryFilter::Tournament, ships, facts.tick),
        ScenarioKind::PrimitiveDuel => eval_victory(VictoryFilter::Tournament, ships, facts.tick),
        ScenarioKind::FighterDuel => eval_victory(VictoryFilter::Tournament, ships, facts.tick),
        ScenarioKind::FrigateDuel => eval_victory(VictoryFilter::Tournament, ships, facts.tick),
        ScenarioKind::CruiserDuel => eval_victory(VictoryFilter::Tournament, ships, facts.tick),
        ScenarioKind::FrigateVsCruiser => eval_victory(
            VictoryFilter::Tournament,
            ships,
            facts.tick,
        ),
        ScenarioKind::CruiserVsFrigate => eval_victory(
            VictoryFilter::Tournament,
            ships,
            facts.tick,
        ),
        ScenarioKind::Furball => eval_victory(VictoryFilter::Tournament, ships, facts.tick),
        ScenarioKind::Fleet => eval_victory(VictoryFilter::CapitalShip, ships, facts.tick),
        ScenarioKind::Belt => eval_victory(VictoryFilter::CapitalShip, ships, facts.tick),
        ScenarioKind::MissileTest => missile_test_status(
            facts.missile_test,
            facts.missile_target_alive,
        ),
        ScenarioKind::BulletStress => if facts.bullet_count == 0 {
            Status::Victory { team: 0 }
        } else {
            Status::Running
        },
        ScenarioKind::MissileStress => if ships.len() < 50 {
            Status::Victory { team: 0 }
        } else {
            Status::Running
        },
        ScenarioKind::Tutorial02 => if facts.hit_target {
            Status::Victory { team: 0 }
        } else {
            Status::Running
        },
        ScenarioKind::Tutorial03 => if facts.hit_target {
            Status::Victory { team: 0 }
        } else {
            Status::Running
        },
        _ => eval_tutorial(ships, facts.tick),
    }
}

/// Evaluate one scenario's status for this tick.
pub fn scenario_status(k: ScenarioKind, ships: &Vec<ShipSummary>, facts: TickFacts) -> (r: Status)
    ensures
        r == scenario_status_of(k, ships@, facts),
{
    match k {
        ScenarioKind::Test | ScenarioKind::Welcome | ScenarioKind::FrigatePointDefense => {
            Status::Running
        },
        ScenarioKind::Basic
        | ScenarioKind::PrimitiveDuel
        | ScenarioKind::FighterDuel
        | ScenarioKind::FrigateDuel
        | ScenarioKind::CruiserDuel
        | ScenarioKind::FrigateVsCruiser
        | ScenarioKind::CruiserVsFrigate
        | ScenarioKind::Furball => check_tournament_victory(ships, facts.tick),
        ScenarioKind::Fleet | ScenarioKind::Belt => check_capital_ship_tournament_victory(
            ships,
            facts.tick,
        ),
        ScenarioKind::MissileTest => facts.missile_test.status(facts.missile_target_alive),
        ScenarioKind::BulletStress => {
            if facts.bullet_count == 0 {
                Status::Victory { team: 0 }
            } else {
                Status::Running
            }
        },
        ScenarioKind::MissileStress => {
            if ships.len() < 50 {
                Status::Victory { team: 0 }
            } else {
                Status::Running
            }
        },
        ScenarioKind::Tutorial02 | ScenarioKind::Tutorial03 => {
            if facts.hit_target {
                Status::Victory { team: 0 }
            } else {
                Status::Running
            }
        },
        _ => check_tutorial_victory(ships, facts.tick),
    }
}

/// The class of the one player ship the welcome scenario spawns: a
/// fighter, frigate or cruiser, drawn from the match generator.
pub fn welcome_player_class(rng: &mut rand::rngs::StdRng) -> (c: ShipClass)
    ensures
        c == ShipClass::Fighter || c == ShipClass::Frigate || c == ShipClass::Cruiser,
{
    let k = gen_below(rng, 3);
    if k == 0 {
        ShipClass::Fighter
    } else if k == 1 {
        ShipClass::Frigate
    } else {
        ShipClass::Cruiser
    }
}

/// Whether a value is one of the asteroid variants the welcome scenario
/// scatters around the player.
pub open spec fn is_welcome_asteroid_variant(v: u32) -> bool {
    v == 1 || v == 6 || v == 14
}

/// One asteroid variant for the welcome scenario.
pub fn welcome_asteroid_variant(rng: &mut rand::rngs::StdRng) -> (v: u32)
    ensures
        is_welcome_asteroid_variant(v),
{
    let k = gen_below(rng, 3);
    if k == 0 {
        1
    } else if k == 1 {
        6
    } else {
        14
    }
}

/// The welcome scenario keeps twenty ships alive: given how many are
/// left, draw the variants of the asteroids to spawn this tick.
pub fn welcome_spawn_plan(rng: &mut rand::rngs::StdRng, ship_count: usize) -> (plan: Vec<u32>)
    ensures
        plan@.len() == if ship_count < 20 {
            20 - ship_count
        } else {
            0
        },
        forall|i: int| 0 <= i < plan@.len() ==> is_welcome_asteroid_variant(#[trigger] plan@[i]),
{
    let mut plan: Vec<u32> = Vec::new();
    let missing: usize = if ship_count < 20 {
        20 - ship_count
    } else {
        0
    };
    let mut i: usize = 0;
    while i < missing
        invariant
            i <= missing,
            plan@.len() == i,
            forall|k: int| 0 <= k < i ==> is_welcome_asteroid_variant(#[trigger] plan@[k]),
        decreases missing - i,
    {
        let v = welcome_asteroid_variant(rng);
        plan.push(v);
        i = i + 1;
    }
    plan
}

/// The variant of one stress-test or belt asteroid.
pub fn asteroid_variant(rng: &mut rand::rngs::StdRng) -> (v: u32)
    ensures
        v < 30,
{
    gen_below(rng, 30)
}

/// Every name in the scenario picker leads back into the registry.
pub proof fn lemma_listed_names_load()
    ensures
        forall|i: int| 0 <= i < listed_names().len() ==> is_scenario_name(#[trigger] listed_names()[i]),
{
    assert forall|i: int| 0 <= i < listed_names().len() implies is_scenario_name(
        #[trigger] listed_names()[i],
    ) by {
        if i == 0 {
            assert(is_scenario_name(listed_names()[0]));
        } else if i <= 11 {
            assert(is_scenario_name(listed_names()[1]));
            assert(is_scenario_name(listed_names()[2]));
            assert(is_scenario_name(listed_names()[3]));
            assert(is_scenario_name(listed_names()[4]));
            assert(is_scenario_name(listed_names()[5]));
            assert(is_scenario_name(listed_names()[6]));
            assert(is_scenario_name(listed_names()[7]));
            assert(is_scenario_name(listed_names()[8]));
            assert(is_scenario_name(listed_names()[9]));
            assert(is_scenario_name(listed_names()[10]));
            assert(is_scenario_name(listed_names()[11]));
        } else {
            assert(is_scenario_name(listed_names()[12]));
            assert(is_scenario_name(listed_names()[13]));
            assert(is_scenario_name(listed_names()[14]));
            assert(is_scenario_name(listed_names()[15]));
            assert(is_scenario_name(listed_names()[16]));
            assert(is_scenario_name(listed_names()[17]));
            assert(is_scenario_name(listed_names()[18]));
        }
    }
}

} // verus!
