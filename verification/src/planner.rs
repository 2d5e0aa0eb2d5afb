//! The veto-order planner: for each series format, the fixed alternating
//! sequence of ban and pick steps, and the message that opens the veto.

use vstd::prelude::*;

use crate::session::{SessionModel, SetupStep, StepModel, Setup};
use crate::text::{dec_int, i64_string};
use crate::types::{SeriesType, StepType};

verus! {

/// An unresolved step of the plan.
pub open spec fn planned(match_id: int, step_type: StepType, team: int) -> StepModel {
    StepModel { match_id, step_type, team_role_id: team, map: None }
}

/// The fixed veto order of a format: who acts, in which order, banning or
/// picking. Single: five alternating bans starting
/// with team two, then team one's pick. Best of three: ban, ban, pick, pick,
/// ban, pick. Best of five: ban, ban, then five picks alternating from team
/// one.
pub open spec fn plan(series: SeriesType, match_id: int, one: int, two: int) -> Seq<StepModel> {
    match series {
        SeriesType::Bo1 => seq![
            planned(match_id, StepType::Veto, two),
            planned(match_id, StepType::Veto, one),
            planned(match_id, StepType::Veto, two),
            planned(match_id, StepType::Veto, one),
            planned(match_id, StepType::Veto, two),
            planned(match_id, StepType::Pick, one),
        ],
        SeriesType::Bo3 => seq![
            planned(match_id, StepType::Veto, one),
            planned(match_id, StepType::Veto, two),
            planned(match_id, StepType::Pick, one),
            planned(match_id, StepType::Pick, two),
            planned(match_id, StepType::Veto, two),
            planned(match_id, StepType::Pick, one),
        ],
        SeriesType::Bo5 => seq![
            planned(match_id, StepType::Veto, one),
            planned(match_id, StepType::Veto, two),
            planned(match_id, StepType::Pick, one),
            planned(match_id, StepType::Pick, two),
            planned(match_id, StepType::Pick, one),
            planned(match_id, StepType::Pick, two),
            planned(match_id, StepType::Pick, one),
        ],
    }
}

/// How many steps the plan of a format has.
pub open spec fn plan_len(series: SeriesType) -> int {
    match series {
        SeriesType::Bo1 => 6,
        SeriesType::Bo3 => 6,
        SeriesType::Bo5 => 7,
    }
}

/// How many maps a series of this format resolves: the number of pick steps
/// in its plan.
pub open spec fn resolved_count(series: SeriesType) -> int {
    match series {
        SeriesType::Bo1 => 1,
        SeriesType::Bo3 => 3,
        SeriesType::Bo5 => 5,
    }
}

/// The number of pick steps among the first `k` steps of `order`.
pub open spec fn picks_among(order: Seq<StepModel>, k: int) -> int
    decreases k,
{
    if k <= 0 {
        0
    } else {
        picks_among(order, k - 1) + if order[k - 1].step_type == StepType::Pick {
            1int
        } else {
            0int
        }
    }
}

/// The plan of every format ends with a pick, has `plan_len` steps, and
/// contains exactly `resolved_count` picks.
pub proof fn lemma_plan_shape(series: SeriesType, match_id: int, one: int, two: int)
    ensures
        plan(series, match_id, one, two).len() == plan_len(series),
        picks_among(plan(series, match_id, one, two), plan_len(series)) == resolved_count(series),
        plan(series, match_id, one, two).last().step_type == StepType::Pick,
{
    reveal_with_fuel(picks_among, 9);
}

/// The message that opens the veto for a format, naming the team that bans
/// first.
pub open spec fn veto_begin_message(series: SeriesType, one: int, two: int) -> Seq<char> {
    match series {
        SeriesType::Bo1 => "Best of 1 option selected. Starting map veto. <@&"@ + dec_int(two)
            + "> bans first.\n"@,
        SeriesType::Bo3 => "Best of 3 option selected. Starting map veto. <@&"@ + dec_int(one)
            + "> bans first.\n"@,
        SeriesType::Bo5 => "Best of 5 option selected. Starting map veto. <@&"@ + dec_int(one)
            + "> bans first.\n"@,
    }
}

/// Renders the message that opens the veto for a format.
pub fn veto_begin_string(series: SeriesType, team_one: i64, team_two: i64) -> (r: String)
    ensures
        r@ == veto_begin_message(series, team_one as int, team_two as int),
{
    let (head, first) = match series {
        SeriesType::Bo1 => ("Best of 1 option selected. Starting map veto. <@&", team_two),
        SeriesType::Bo3 => ("Best of 3 option selected. Starting map veto. <@&", team_one),
        SeriesType::Bo5 => ("Best of 5 option selected. Starting map veto. <@&", team_one),
    };
    let mut message = String::from_str(head);
    message.append(i64_string(first).as_str());
    message.append("> bans first.\n");
    proof {
        assert(message@ =~= veto_begin_message(series, team_one as int, team_two as int));
    }
    message
}

/// Whether the creation-time fields of a session are present: the planner
/// and the state machine read them.
pub open spec fn ids_present(s: SessionModel) -> bool {
    &&& s.match_id is Some
    &&& s.team_one is Some
    &&& s.team_two is Some
}

fn step(match_id: i32, step_type: StepType, team_role_id: i64) -> (r: SetupStep)
    ensures
        r@ == planned(match_id as int, step_type, team_role_id as int),
{
    SetupStep { match_id, step_type, team_role_id, map: None }
}

/// Plans a single-map series: five bans alternating from team two, then team
/// one's pick, with the message that opens the veto.
pub fn handle_bo1_setup(setup: &Setup) -> (r: (Vec<SetupStep>, String))
    requires
        ids_present(setup@),
    ensures
        r.0.deep_view() == plan(
            SeriesType::Bo1,
            setup@.match_id->0,
            setup@.team_one->0,
            setup@.team_two->0,
        ),
        r.1@ == veto_begin_message(SeriesType::Bo1, setup@.team_one->0, setup@.team_two->0),
{
    let match_id = setup.match_id.unwrap();
    let team_one = setup.team_one.unwrap();
    let team_two = setup.team_two.unwrap();

    let order = vec![
        step(match_id, StepType::Veto, team_two),
        step(match_id, StepType::Veto, team_one),
        step(match_id, StepType::Veto, team_two),
        step(match_id, StepType::Veto, team_one),
        step(match_id, StepType::Veto, team_two),
        step(match_id, StepType::Pick, team_one),
    ];

    let message = veto_begin_string(SeriesType::Bo1, team_one, team_two);

    proof {
        assert(order.deep_view() =~= plan(
            SeriesType::Bo1,
            match_id as int,
            team_one as int,
            team_two as int,
        ));
    }
    (order, message)
}

/// Plans a best-of-three series: ban, ban, pick, pick, ban, pick, with the
/// message that opens the veto.
pub fn handle_bo3_setup(setup: &Setup) -> (r: (Vec<SetupStep>, String))
    requires
        ids_present(setup@),
    ensures
        r.0.deep_view() == plan(
            SeriesType::Bo3,
            setup@.match_id->0,
            setup@.team_one->0,
            setup@.team_two->0,
        ),
        r.1@ == veto_begin_message(SeriesType::Bo3, setup@.team_one->0, setup@.team_two->0),
{
    let match_id = setup.match_id.unwrap();
    let team_one = setup.team_one.unwrap();
    let team_two = setup.team_two.unwrap();

    let order = vec![
        step(match_id, StepType::Veto, team_one),
        step(match_id, StepType::Veto, team_two),
        step(match_id, StepType::Pick, team_one),
        step(match_id, StepType::Pick, team_two),
        step(match_id, StepType::Veto, team_two),
        step(match_id, StepType::Pick, team_one),
    ];

    let message = veto_begin_string(SeriesType::Bo3, team_one, team_two);

    proof {
        assert(order.deep_view() =~= plan(
            SeriesType::Bo3,
            match_id as int,
            team_one as int,
            team_two as int,
        ));
    }
    (order, message)
}

/// Plans a best-of-five series: two bans, then five alternating picks, with
/// the message that opens the veto.
pub fn handle_bo5_setup(setup: &Setup) -> (r: (Vec<SetupStep>, String))
    requires
        ids_present(setup@),
    ensures
        r.0.deep_view() == plan(
            SeriesType::Bo5,
            setup@.match_id->0,
            setup@.team_one->0,
            setup@.team_two->0,
        ),
        r.1@ == veto_begin_message(SeriesType::Bo5, setup@.team_one->0, setup@.team_two->0),
{
    let match_id = setup.match_id.unwrap();
    let team_one = setup.team_one.unwrap();
    let team_two = setup.team_two.unwrap();

    let order = vec![
        step(match_id, StepType::Veto, team_one),
        step(match_id, StepType::Veto, team_two),
        step(match_id, StepType::Pick, team_one),
        step(match_id, StepType::Pick, team_two),
        step(match_id, StepType::Pick, team_one),
        step(match_id, StepType::Pick, team_two),
        step(match_id, StepType::Pick, team_one),
    ];

    let message = veto_begin_string(SeriesType::Bo5, team_one, team_two);

    proof {
        assert(order.deep_view() =~= plan(
            SeriesType::Bo5,
            match_id as int,
            team_one as int,
            team_two as int,
        ));
    }
    (order, message)
}

} // verus!
