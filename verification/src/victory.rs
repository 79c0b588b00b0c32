//! Match status and the victory evaluators.
//!
//! A status evaluator looks at the live ships (dead ships are removed
//! before status is evaluated) and the current tick, filters the ships
//! that count for victory, and decides Running / Victory / Draw / Failed.

use vstd::prelude::*;

use crate::ship::{ShipClass, ShipSummary};
use crate::MAX_TICKS;

verus! {

/// Outcome of a match, evaluated once per tick.
#[derive(Clone, Copy, PartialEq, Eq, Structural, Debug, Hash)]
pub enum Status {
    Running,
    Victory { team: i32 },
    Failed,
    Draw,
}

/// Which ships count as survivors for a victory rule.
#[derive(Clone, Copy, PartialEq, Eq, Structural, Debug)]
pub enum VictoryFilter {
    /// Everything but missiles and torpedoes counts.
    Tutorial,
    /// Only fighters, frigates and cruisers of teams 0 and 1 count.
    Tournament,
    /// Only frigates and cruisers of teams 0 and 1 count.
    CapitalShip,
}

/// Whether one ship counts as a survivor under the given filter.
pub open spec fn counts_for(f: VictoryFilter, s: ShipSummary) -> bool {
    match f {
        VictoryFilter::Tutorial => s.class != ShipClass::Missile && s.class != ShipClass::Torpedo,
        VictoryFilter::Tournament => (s.class == ShipClass::Fighter || s.class == ShipClass::Frigate
            || s.class == ShipClass::Cruiser) && s.team < 2,
        VictoryFilter::CapitalShip => (s.class == ShipClass::Frigate || s.class == ShipClass::Cruiser)
            && s.team < 2,
    }
}

/// At least one ship counts as a survivor.
pub open spec fn some_counted(f: VictoryFilter, ships: Seq<ShipSummary>) -> bool {
    exists|i: int| 0 <= i < ships.len() && counts_for(f, ships[i])
}

/// All counting survivors belong to one team.
pub open spec fn single_surviving_team(f: VictoryFilter, ships: Seq<ShipSummary>) -> bool {
    forall|i: int, j: int|
        0 <= i < ships.len() && 0 <= j < ships.len() && counts_for(f, ships[i])
            && counts_for(f, ships[j]) ==> ships[i].team == ships[j].team
}

/// Every counting survivor belongs to the given team.
pub open spec fn all_counted_on_team(f: VictoryFilter, ships: Seq<ShipSummary>, team: int) -> bool {
    forall|i: int| 0 <= i < ships.len() && counts_for(f, ships[i]) ==> ships[i].team == team
}

/// The team of some counting survivor; meaningful once survivors exist
/// and share one team.
pub open spec fn winning_team(f: VictoryFilter, ships: Seq<ShipSummary>) -> i32
    recommends
        some_counted(f, ships),
{
    ships[choose|i: int| 0 <= i < ships.len() && counts_for(f, ships[i])].team
}

/// The common victory rule as a function of the ships and the tick.
pub open spec fn eval_victory(f: VictoryFilter, ships: Seq<ShipSummary>, tick: u32) -> Status {
    if !some_counted(f, ships) {
        Status::Draw
    } else if single_surviving_team(f, ships) {
        Status::Victory { team: winning_team(f, ships) }
    } else if tick >= MAX_TICKS - 1 {
        Status::Draw
    } else {
        Status::Running
    }
}

/// The tutorial rule as a function of the ships and the tick: a victory
/// by any team but 0 becomes a failure.
pub open spec fn eval_tutorial(ships: Seq<ShipSummary>, tick: u32) -> Status {
    match eval_victory(VictoryFilter::Tutorial, ships, tick) {
        Status::Victory { team } => if team == 0 {
            Status::Victory { team: 0 }
        } else {
            Status::Failed
        },
        other => other,
    }
}

fn counts_for_exec(f: VictoryFilter, s: &ShipSummary) -> (b: bool)
    ensures
        b == counts_for(f, *s),
{
    match f {
        VictoryFilter::Tutorial => !(s.class == ShipClass::Missile || s.class == ShipClass::Torpedo),
        VictoryFilter::Tournament => (s.class == ShipClass::Fighter || s.class == ShipClass::Frigate
            || s.class == ShipClass::Cruiser) && s.team < 2,
        VictoryFilter::CapitalShip => (s.class == ShipClass::Frigate || s.class == ShipClass::Cruiser)
            && s.team < 2,
    }
}

/// The common victory rule: a draw when nobody counts as a survivor, a
/// victory as soon as one team alone has counting survivors, a draw when
/// the tick cap is reached with several teams still standing, and
/// otherwise a running match. Never reports Failed.
pub fn check_victory_with_filter(f: VictoryFilter, ships: &Vec<ShipSummary>, tick: u32) -> (r:
    Status)
    ensures
        !(r is Failed),
        r is Draw <==> (!some_counted(f, ships@) || (!single_surviving_team(f, ships@) && tick
            >= MAX_TICKS - 1)),
        r is Victory <==> (some_counted(f, ships@) && single_surviving_team(f, ships@)),
        r matches Status::Victory { team } ==> all_counted_on_team(f, ships@, team as int)
            && exists|i: int|
            0 <= i < ships@.len() && counts_for(f, ships@[i]) && ships@[i].team == team,
        r is Running <==> (some_counted(f, ships@) && !single_surviving_team(f, ships@) && tick
            < MAX_TICKS - 1),
        tick >= MAX_TICKS - 1 ==> !(r is Running),
        r == eval_victory(f, ships@, tick),
{
    let n: usize = ships.len();
    let mut found: bool = false;
    let mut team0: i32 = 0;
    let mut several: bool = false;
    let mut k: usize = 0;
    while k < n
        invariant
            k <= n,
            n == ships@.len(),
            !found ==> forall|i: int| 0 <= i < k ==> !counts_for(f, ships@[i]),
            found ==> exists|i: int|
                0 <= i < k && counts_for(f, ships@[i]) && ships@[i].team == team0,
            !several ==> forall|i: int|
                0 <= i < k && counts_for(f, ships@[i]) ==> ships@[i].team == team0,
            several ==> exists|i: int, j: int|
                0 <= i < k && 0 <= j < k && counts_for(f, ships@[i]) && counts_for(f, ships@[j])
                    && ships@[i].team != ships@[j].team,
        decreases n - k,
    {
        let s = ships[k];
        if counts_for_exec(f, &s) {
            if !found {
                found = true;
                team0 = s.team;
            } else if s.team != team0 {
                several = true;
            }
        }
        k = k + 1;
    }
    if !found {
        Status::Draw
    } else if !several {
        proof {
            let c = choose|i: int| 0 <= i < ships@.len() && counts_for(f, ships@[i]);
            assert(ships@[c].team == team0);
        }
        Status::Victory { team: team0 }
    } else if tick >= MAX_TICKS - 1 {
        Status::Draw
    } else {
        Status::Running
    }
}

/// The tutorial rule: team 0 wins if and only if it alone has surviving
/// non-missile, non-torpedo ships; a lone surviving opponent means the
/// tutorial failed.
pub fn check_tutorial_victory(ships: &Vec<ShipSummary>, tick: u32) -> (r: Status)
    ensures
        r matches Status::Victory { team } ==> team == 0,
        r is Victory <==> (some_counted(VictoryFilter::Tutorial, ships@) && all_counted_on_team(
            VictoryFilter::Tutorial,
            ships@,
            0,
        )),
        r is Failed <==> (some_counted(VictoryFilter::Tutorial, ships@) && single_surviving_team(
            VictoryFilter::Tutorial,
            ships@,
        ) && !all_counted_on_team(VictoryFilter::Tutorial, ships@, 0)),
        r is Draw <==> (!some_counted(VictoryFilter::Tutorial, ships@) || (!single_surviving_team(
            VictoryFilter::Tutorial,
            ships@,
        ) && tick >= MAX_TICKS - 1)),
        r is Running <==> (some_counted(VictoryFilter::Tutorial, ships@) && !single_surviving_team(
            VictoryFilter::Tutorial,
            ships@,
        ) && tick < MAX_TICKS - 1),
        r == eval_tutorial(ships@, tick),
{
    let r = check_victory_with_filter(VictoryFilter::Tutorial, ships, tick);
    match r {
        Status::Victory { team } => {
            if team == 0 {
                Status::Victory { team: 0 }
            } else {
                Status::Failed
            }
        },
        other => other,
    }
}

/// The tournament rule over fighters, frigates and cruisers of teams 0
/// and 1.
pub fn check_tournament_victory(ships: &Vec<ShipSummary>, tick: u32) -> (r: Status)
    ensures
        !(r is Failed),
        r is Draw <==> (!some_counted(VictoryFilter::Tournament, ships@) || (
        !single_surviving_team(VictoryFilter::Tournament, ships@) && tick >= MAX_TICKS - 1)),
        r is Victory <==> (some_counted(VictoryFilter::Tournament, ships@) && single_surviving_team(
            VictoryFilter::Tournament,
            ships@,
        )),
        r matches Status::Victory { team } ==> all_counted_on_team(
            VictoryFilter::Tournament,
            ships@,
            team as int,
        ) && exists|i: int|
            0 <= i < ships@.len() && counts_for(VictoryFilter::Tournament, ships@[i])
                && ships@[i].team == team,
        r is Running <==> (some_counted(VictoryFilter::Tournament, ships@)
            && !single_surviving_team(VictoryFilter::Tournament, ships@) && tick < MAX_TICKS - 1),
        r == eval_victory(VictoryFilter::Tournament, ships@, tick),
{
    check_victory_with_filter(VictoryFilter::Tournament, ships, tick)
}

/// The capital-ship tournament rule over frigates and cruisers of teams 0
/// and 1.
pub fn check_capital_ship_tournament_victory(ships: &Vec<ShipSummary>, tick: u32) -> (r: Status)
    ensures
        !(r is Failed),
        r is Draw <==> (!some_counted(VictoryFilter::CapitalShip, ships@) || (
        !single_surviving_team(VictoryFilter::CapitalShip, ships@) && tick >= MAX_TICKS - 1)),
        r is Victory <==> (some_counted(VictoryFilter::CapitalShip, ships@)
            && single_surviving_team(VictoryFilter::CapitalShip, ships@)),
        r matches Status::Victory { team } ==> all_counted_on_team(
            VictoryFilter::CapitalShip,
            ships@,
            team as int,
        ) && exists|i: int|
            0 <= i < ships@.len() && counts_for(VictoryFilter::CapitalShip, ships@[i])
                && ships@[i].team == team,
        r is Running <==> (some_counted(VictoryFilter::CapitalShip, ships@)
            && !single_surviving_team(VictoryFilter::CapitalShip, ships@) && tick < MAX_TICKS - 1),
        r == eval_victory(VictoryFilter::CapitalShip, ships@, tick),
{
    check_victory_with_filter(VictoryFilter::CapitalShip, ships, tick)
}

/// Whether the driver loop stops after this tick: the status left
/// Running, or the tick counter reached the cap.
pub fn match_over(status: Status, tick: u32) -> (r: bool)
    ensures
        r == (!(status is Running) || tick >= MAX_TICKS),
{
    let running = match status {
        Status::Running => true,
        _ => false,
    };
    !running || tick >= MAX_TICKS
}

} // verus!
