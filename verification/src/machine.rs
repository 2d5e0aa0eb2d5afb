//! The phase state machine: how one authorized action moves a session from
//! server pick through map veto and side pick to completion, and which
//! prompt each accepted action emits.

use vstd::prelude::*;

use crate::planner::{ids_present, lemma_plan_shape, picks_among, plan, plan_len, resolved_count, veto_begin_string};
use crate::models::{Match, MatchModel};
use crate::session::{MapSlotModel, SessionModel, Setup, SetupMap, SetupStep, StepModel};
use crate::text::{mention, mention_string, veto_info_string, veto_info_text};
use crate::types::{SeriesType, State, StepType, step_verb};
use crate::validator::{authorize, is_participant, other_team, rejection_of, turn_of, Rejection};

verus! {

/// A veto-order step with its map recorded.
pub open spec fn filled_with(step: StepModel, m: Seq<char>) -> StepModel {
    StepModel { map: Some(m), ..step }
}

/// A veto-order step with its map forgotten, as the planner produced it.
pub open spec fn cleared(step: StepModel) -> StepModel {
    StepModel { map: None, ..step }
}

/// A freshly resolved series map: no sides chosen yet.
pub open spec fn new_slot(match_id: int, m: Seq<char>, picked_by: int) -> MapSlotModel {
    MapSlotModel { match_id, map: m, picked_by, start_attack: None, start_defense: None }
}

/// The remaining pool with one occurrence of `m` taken out; unchanged when
/// `m` is not in the pool.
pub open spec fn remove_map(rem: Seq<Seq<char>>, m: Seq<char>) -> Seq<Seq<char>> {
    if rem.contains(m) {
        rem.remove(rem.index_of(m))
    } else {
        rem
    }
}

/// Whether exactly the first `k` steps of the order carry a recorded map.
pub open spec fn filled_below(order: Seq<StepModel>, k: int) -> bool {
    forall|i: int| 0 <= i < order.len() ==> (#[trigger] order[i].map is Some <==> i < k)
}

/// How many veto-order steps have run so far.
pub open spec fn steps_done(s: SessionModel) -> int {
    match s.current_phase {
        State::ServerPick => 0,
        State::MapVeto => s.current_step,
        State::SidePick => s.veto_pick_order.len() as int,
        State::Completed => s.veto_pick_order.len() as int,
    }
}

/// How many resolved maps have their sides chosen so far.
pub open spec fn sides_done(s: SessionModel) -> int {
    match s.current_phase {
        State::ServerPick => 0,
        State::MapVeto => 0,
        State::SidePick => s.current_step,
        State::Completed => s.maps.len() as int,
    }
}

/// The order still is the planner's table for this session: same length,
/// and every step the planned one apart from the recorded map.
pub open spec fn order_follows_plan(s: SessionModel) -> bool {
    let p = plan(s.series_type, s.match_id->0, s.team_one->0, s.team_two->0);
    &&& s.veto_pick_order.len() == plan_len(s.series_type)
    &&& forall|i: int| 0 <= i < s.veto_pick_order.len() ==> cleared(#[trigger] s.veto_pick_order[i])
        == p[i]
}

/// Both sides of a resolved map are assigned, to the two teams of the
/// session in one order or the other.
pub open spec fn sides_assigned(m: MapSlotModel, one: int, two: int) -> bool {
    ||| (m.start_attack == Some(one) && m.start_defense == Some(two))
    ||| (m.start_attack == Some(two) && m.start_defense == Some(one))
}

/// Neither side of a resolved map is assigned yet.
pub open spec fn sides_blank(m: MapSlotModel) -> bool {
    m.start_attack is None && m.start_defense is None
}

/// Well-formedness of a session, preserved by every accepted action:
/// the teams are distinct, the veto order follows the plan and is filled up
/// to the cursor, the resolved maps are exactly the picks made so far, the
/// remaining pool has no duplicates and shares no map with the resolved
/// ones, and side assignments cover exactly the maps the side-pick cursor
/// has passed.
pub open spec fn session_inv(s: SessionModel) -> bool {
    &&& ids_present(s)
    &&& s.team_one->0 != s.team_two->0
    &&& order_follows_plan(s)
    &&& filled_below(s.veto_pick_order, steps_done(s))
    &&& match s.current_phase {
        State::ServerPick => s.current_step == 0 && s.maps.len() == 0 && s.server_id is None,
        State::MapVeto => 0 <= s.current_step < s.veto_pick_order.len() && s.server_id is Some
            && s.maps.len() == picks_among(s.veto_pick_order, s.current_step),
        State::SidePick => 0 <= s.current_step < s.maps.len() && s.server_id is Some,
        State::Completed => s.current_step == s.maps.len() && s.server_id is Some,
    }
    &&& forall|j: int| 0 <= j < s.maps.len() ==> is_participant(s, #[trigger] s.maps[j].picked_by)
    &&& forall|j: int| 0 <= j < s.maps.len() ==> (if j < sides_done(s) {
        sides_assigned(#[trigger] s.maps[j], s.team_one->0, s.team_two->0)
    } else {
        sides_blank(s.maps[j])
    })
    &&& forall|i: int, j: int| 0 <= i < s.maps_remaining.len() && 0 <= j < s.maps_remaining.len()
        && i != j ==> s.maps_remaining[i] != s.maps_remaining[j]
    &&& forall|i: int, j: int| 0 <= i < s.maps_remaining.len() && 0 <= j < s.maps.len()
        ==> s.maps_remaining[i] != s.maps[j].map
}

/// The pool a session of this format is opened with: six maps, of which a
/// best-of-five needs a seventh so that one decider is left after its six
/// acted steps.
pub open spec fn pool_required(series: SeriesType) -> int {
    match series {
        SeriesType::Bo1 => 6,
        SeriesType::Bo3 => 6,
        SeriesType::Bo5 => 7,
    }
}

/// The remaining pool tracks the veto: a session opened on the standard
/// pool has seen exactly one map leave per acted step.
pub open spec fn standard_pool(s: SessionModel) -> bool {
    match s.current_phase {
        State::ServerPick => s.maps_remaining.len() == pool_required(s.series_type),
        State::MapVeto => s.maps_remaining.len() + s.current_step == pool_required(s.series_type),
        State::SidePick => true,
        State::Completed => true,
    }
}

/// A server choice: records the server and opens the veto.
pub open spec fn apply_server_pick(s: SessionModel, choice: Seq<char>) -> SessionModel {
    SessionModel { server_id: Some(choice), current_phase: State::MapVeto, ..s }
}

/// A veto-phase choice: records the map on the current step, resolves it as
/// a series map when the step picks, and removes it from the pool. When the
/// next step would be the last and exactly one map remains, that map is the
/// forced decider: the last step resolves it at once, attributed to the last
/// step's actor, and no further veto prompt is emitted. When the acted step
/// was itself the last, any single leftover map is appended as the decider.
/// Reaching the end of the order resets the cursor and enters side picking.
pub open spec fn apply_map_veto(s: SessionModel, choice: Seq<char>) -> SessionModel {
    let i = s.current_step;
    let step = s.veto_pick_order[i];
    let order1 = s.veto_pick_order.update(i, filled_with(step, choice));
    let maps1 = if step.step_type == StepType::Pick {
        s.maps.push(new_slot(s.match_id->0, choice, step.team_role_id))
    } else {
        s.maps
    };
    let rem1 = remove_map(s.maps_remaining, choice);
    let last = order1.len() - 1;
    if i == last {
        if rem1.len() == 1 {
            SessionModel {
                veto_pick_order: order1,
                maps: maps1.push(new_slot(s.match_id->0, rem1[0], order1[last].team_role_id)),
                maps_remaining: rem1.remove(0),
                current_step: 0,
                current_phase: State::SidePick,
                ..s
            }
        } else {
            SessionModel {
                veto_pick_order: order1,
                maps: maps1,
                maps_remaining: rem1,
                current_step: 0,
                current_phase: State::SidePick,
                ..s
            }
        }
    } else if i + 1 == last && rem1.len() == 1 && order1[last].step_type == StepType::Pick {
        SessionModel {
            veto_pick_order: order1.update(last, filled_with(order1[last], rem1[0])),
            maps: maps1.push(new_slot(s.match_id->0, rem1[0], order1[last].team_role_id)),
            maps_remaining: rem1.remove(0),
            current_step: 0,
            current_phase: State::SidePick,
            ..s
        }
    } else {
        SessionModel {
            veto_pick_order: order1,
            maps: maps1,
            maps_remaining: rem1,
            current_step: i + 1,
            current_phase: State::MapVeto,
            ..s
        }
    }
}

/// A side choice for the current map, made by the team that did not pick
/// it: `ct` puts the chooser on defense, anything else on attack, and the
/// picker on the opposite side. The last assignment completes the session.
pub open spec fn apply_side_pick(s: SessionModel, choice: Seq<char>) -> SessionModel {
    let i = s.current_step;
    let slot = s.maps[i];
    let picker = slot.picked_by;
    let chooser = other_team(s, picker);
    let slot1 = if choice == "ct"@ {
        MapSlotModel { start_defense: Some(chooser), start_attack: Some(picker), ..slot }
    } else {
        MapSlotModel { start_defense: Some(picker), start_attack: Some(chooser), ..slot }
    };
    let maps1 = s.maps.update(i, slot1);
    SessionModel {
        maps: maps1,
        current_step: i + 1,
        current_phase: if i + 1 == maps1.len() {
            State::Completed
        } else {
            State::SidePick
        },
        ..s
    }
}

/// What one accepted action does to the session in its current phase.
pub open spec fn apply_action(s: SessionModel, choice: Seq<char>) -> SessionModel {
    match s.current_phase {
        State::ServerPick => apply_server_pick(s, choice),
        State::MapVeto => apply_map_veto(s, choice),
        State::SidePick => apply_side_pick(s, choice),
        State::Completed => s,
    }
}

/// The prompt an accepted action emits: the narrative text, and for a veto
/// round the selectable maps and the verb of the coming step. `Done` means
/// the session completed and the caller should finalize and provision.
#[derive(Debug)]
pub enum Prompt {
    Veto { text: String, maps: Vec<String>, step_type: StepType },
    Side { text: String },
    Done,
}

/// Model of a prompt.
#[verifier::ext_equal]
pub ghost enum PromptModel {
    Veto { text: Seq<char>, maps: Seq<Seq<char>>, step_type: StepType },
    Side { text: Seq<char> },
    Done,
}

impl View for Prompt {
    type V = PromptModel;

    open spec fn view(&self) -> PromptModel {
        match self {
            Prompt::Veto { text, maps, step_type } => PromptModel::Veto {
                text: text@,
                maps: maps.deep_view(),
                step_type: *step_type,
            },
            Prompt::Side { text } => PromptModel::Side { text: text@ },
            Prompt::Done => PromptModel::Done,
        }
    }
}

/// The text that announces the side-pick phase, read off the session after
/// the veto finished: the team that did not pick the first resolved map is
/// asked for its side.
pub open spec fn side_begin_text(post: SessionModel) -> Seq<char> {
    "Map veto completed.\nIt is "@ + mention(other_team(post, post.maps[0].picked_by))
        + " turn to pick starting side for `"@ + post.maps[0].map + "`"@
}

/// The text that asks for the side of the map the side-pick cursor stands
/// on, read off the session after an assignment.
pub open spec fn side_next_text(post: SessionModel) -> Seq<char> {
    "It is "@ + mention(other_team(post, post.maps[post.current_step].picked_by))
        + " turn to pick starting side on "@ + post.maps[post.current_step].map
}

/// The text of a veto round, read off the session after a step ran: the
/// narration of the recorded steps, then whose turn it is and what the
/// coming step does.
pub open spec fn veto_round_text(post: SessionModel) -> Seq<char> {
    veto_info_text(post.veto_pick_order, post.team_one->0, post.team_one_name, post.team_two_name)
        + "\nIt is "@ + mention(post.veto_pick_order[post.current_step].team_role_id)
        + " turn to "@ + step_verb(post.veto_pick_order[post.current_step].step_type)
}

/// The prompt that an accepted action emits, as a function of the session
/// after the action and of the phase it acted in.
pub open spec fn prompt_of(post: SessionModel, from: State) -> PromptModel {
    match from {
        State::ServerPick => PromptModel::Veto {
            text: crate::planner::veto_begin_message(
                post.series_type,
                post.team_one->0,
                post.team_two->0,
            ),
            maps: post.maps_remaining,
            step_type: post.veto_pick_order[0].step_type,
        },
        State::MapVeto => if post.current_phase == State::MapVeto {
            PromptModel::Veto {
                text: veto_round_text(post),
                maps: post.maps_remaining,
                step_type: post.veto_pick_order[post.current_step].step_type,
            }
        } else {
            PromptModel::Side { text: side_begin_text(post) }
        },
        State::SidePick => if post.current_phase == State::SidePick {
            PromptModel::Side { text: side_next_text(post) }
        } else {
            PromptModel::Done
        },
        State::Completed => PromptModel::Done,
    }
}

/// Counting picks reads only the step kinds: orders that agree on them
/// below `k` agree on the count.
pub proof fn lemma_picks_among_same_types(a: Seq<StepModel>, b: Seq<StepModel>, k: int)
    requires
        forall|j: int| 0 <= j < k ==> a[j].step_type == b[j].step_type,
    ensures
        picks_among(a, k) == picks_among(b, k),
    decreases k,
{
    if k > 0 {
        lemma_picks_among_same_types(a, b, k - 1);
    }
}

/// Every actor in a plan is one of the two teams it was made for.
pub proof fn lemma_plan_actors(series: SeriesType, match_id: int, one: int, two: int)
    ensures
        forall|i: int| 0 <= i < plan(series, match_id, one, two).len() ==> (#[trigger] plan(
            series,
            match_id,
            one,
            two,
        )[i].team_role_id == one || plan(series, match_id, one, two)[i].team_role_id == two),
{
}

/// An accepted action keeps the session well formed, and keeps the pool
/// tracking the veto when it did before.
pub proof fn lemma_inv_preserved(s: SessionModel, choice: Seq<char>)
    requires
        session_inv(s),
        s.current_phase != State::Completed,
        s.current_phase == State::MapVeto ==> s.maps_remaining.contains(choice),
    ensures
        session_inv(apply_action(s, choice)),
        standard_pool(s) ==> standard_pool(apply_action(s, choice)),
{
    let post = apply_action(s, choice);
    let p = plan(s.series_type, s.match_id->0, s.team_one->0, s.team_two->0);
    lemma_plan_actors(s.series_type, s.match_id->0, s.team_one->0, s.team_two->0);
    match s.current_phase {
        State::ServerPick => {
            assert(session_inv(post));
        },
        State::MapVeto => {
            let i = s.current_step;
            let step = s.veto_pick_order[i];
            let order1 = s.veto_pick_order.update(i, filled_with(step, choice));
            let maps1 = if step.step_type == StepType::Pick {
                s.maps.push(new_slot(s.match_id->0, choice, step.team_role_id))
            } else {
                s.maps
            };
            let rem1 = remove_map(s.maps_remaining, choice);
            let last = order1.len() - 1;
            let w = s.maps_remaining.index_of(choice);
            assert(s.maps_remaining[w] == choice);
            assert(rem1 == s.maps_remaining.remove(w));

            assert(cleared(filled_with(step, choice)) =~= cleared(step));
            assert(order_follows_plan(SessionModel { veto_pick_order: order1, ..s }));
            assert(forall|j: int| 0 <= j < order1.len() ==> #[trigger] order1[j].team_role_id
                == cleared(order1[j]).team_role_id && order1[j].step_type == cleared(
                order1[j],
            ).step_type);
            lemma_picks_among_same_types(order1, s.veto_pick_order, i);
            assert(maps1.len() == picks_among(order1, i + 1));

            if i == last {
                if rem1.len() == 1 {
                    assert(session_inv(post));
                } else {
                    assert(order1[last].step_type == p[last].step_type);
                    lemma_plan_shape(s.series_type, s.match_id->0, s.team_one->0, s.team_two->0);
                    assert(order1[last].step_type == StepType::Pick);
                    assert(maps1.len() > 0);
                    assert(session_inv(post));
                }
            } else if i + 1 == last && rem1.len() == 1 && order1[last].step_type
                == StepType::Pick {
                let order2 = order1.update(last, filled_with(order1[last], rem1[0]));
                assert(cleared(filled_with(order1[last], rem1[0])) =~= cleared(order1[last]));
                assert(order_follows_plan(SessionModel { veto_pick_order: order2, ..s }));
                lemma_picks_among_same_types(order2, order1, i + 1);
                assert(post.maps.len() > 0);
                assert(session_inv(post));
            } else {
                assert(session_inv(post));
            }
        },
        State::SidePick => {
            assert(session_inv(post));
        },
        State::Completed => {},
    }
}

/// The session a fresh negotiation starts in: server pick, the full pool,
/// the plan of the match's format, nothing resolved.
pub open spec fn init_session(m: MatchModel, pool: Seq<Seq<char>>) -> SessionModel {
    SessionModel {
        team_one: Some(m.team_one_role_id),
        team_two: Some(m.team_two_role_id),
        team_one_name: m.team_one_name,
        team_two_name: m.team_two_name,
        team_one_conn_str: None,
        team_two_conn_str: None,
        maps_remaining: pool,
        maps: Seq::empty(),
        vetoes: Seq::empty(),
        series_type: m.series_type,
        match_id: m.id,
        veto_pick_order: plan(m.series_type, m.id->0, m.team_one_role_id, m.team_two_role_id),
        current_step: 0,
        current_phase: State::ServerPick,
        server_id: None,
    }
}

/// Opens a negotiation for a match: a well-formed session in the server-pick
/// phase, on the given map pool. The pool must not repeat a map name.
pub fn new_setup(current_match: &Match, map_pool: Vec<String>) -> (r: Setup)
    requires
        current_match@.id is Some,
        current_match@.team_one_role_id != current_match@.team_two_role_id,
        forall|i: int, j: int|
            0 <= i < map_pool.deep_view().len() && 0 <= j < map_pool.deep_view().len() && i != j
                ==> map_pool.deep_view()[i] != map_pool.deep_view()[j],
    ensures
        r@ == init_session(current_match@, map_pool.deep_view()),
        session_inv(r@),
{
    let ghost pool = map_pool.deep_view();
    let mut setup = Setup {
        team_one: Some(current_match.team_one_role_id),
        team_two: Some(current_match.team_two_role_id),
        team_one_name: current_match.team_one_name.clone(),
        team_two_name: current_match.team_two_name.clone(),
        team_one_conn_str: None,
        team_two_conn_str: None,
        maps_remaining: map_pool,
        maps: Vec::new(),
        vetoes: Vec::new(),
        series_type: current_match.series_type,
        match_id: current_match.id,
        veto_pick_order: Vec::new(),
        current_step: 0,
        current_phase: State::ServerPick,
        server_id: None,
    };
    let (order, _message) = match setup.series_type {
        SeriesType::Bo1 => crate::planner::handle_bo1_setup(&setup),
        SeriesType::Bo3 => crate::planner::handle_bo3_setup(&setup),
        SeriesType::Bo5 => crate::planner::handle_bo5_setup(&setup),
    };
    setup.veto_pick_order = order;
    proof {
        assert(setup@ =~= init_session(current_match@, pool));
    }
    setup
}

/// An identity that belongs to neither team is turned away as a
/// non-participant, whatever the phase.
pub proof fn lemma_outsider_rejected(s: SessionModel, party: int)
    requires
        !is_participant(s, party),
    ensures
        rejection_of(s, party) == Some(Rejection::NotParticipant),
{
}

/// While the session is not completed, the turn holder is one of the two
/// teams and its action is accepted.
pub proof fn lemma_holder_may_act(s: SessionModel)
    requires
        session_inv(s),
        s.current_phase != State::Completed,
    ensures
        turn_of(s) is Some,
        is_participant(s, turn_of(s)->0),
        rejection_of(s, turn_of(s)->0) is None,
{
    lemma_plan_actors(s.series_type, s.match_id->0, s.team_one->0, s.team_two->0);
    match s.current_phase {
        State::MapVeto => {
            let i = s.current_step;
            assert(cleared(s.veto_pick_order[i]).team_role_id
                == s.veto_pick_order[i].team_role_id);
        },
        _ => {},
    }
}

/// During the veto on the standard pool, every accepted action removes
/// exactly one map per step it resolves: the pool shrinks, never grows, and
/// the sum of remaining maps and resolved steps is conserved.
pub proof fn lemma_pool_tracks_steps(s: SessionModel, choice: Seq<char>)
    requires
        session_inv(s),
        standard_pool(s),
        s.current_phase == State::MapVeto,
        s.maps_remaining.contains(choice),
    ensures
        apply_action(s, choice).maps_remaining.len() < s.maps_remaining.len(),
        apply_action(s, choice).maps_remaining.len() + steps_done(apply_action(s, choice))
            == s.maps_remaining.len() + steps_done(s),
{
    let post = apply_action(s, choice);
    let i = s.current_step;
    let rem1 = remove_map(s.maps_remaining, choice);
    let w = s.maps_remaining.index_of(choice);
    assert(s.maps_remaining[w] == choice);
    assert(rem1.len() == s.maps_remaining.len() - 1);
}

/// On the standard pool, the number of resolved maps at the moment the veto
/// hands over to side picking is exactly what the format calls for: one for
/// a single game, three for a best of three, five for a best of five.
pub proof fn lemma_resolved_count_at_transition(s: SessionModel, choice: Seq<char>)
    requires
        session_inv(s),
        standard_pool(s),
        s.current_phase == State::MapVeto,
        s.maps_remaining.contains(choice),
    ensures
        apply_action(s, choice).current_phase == State::SidePick ==> apply_action(
            s,
            choice,
        ).maps.len() == resolved_count(s.series_type),
{
    let post = apply_action(s, choice);
    let i = s.current_step;
    let step = s.veto_pick_order[i];
    let order1 = s.veto_pick_order.update(i, filled_with(step, choice));
    let maps1 = if step.step_type == StepType::Pick {
        s.maps.push(new_slot(s.match_id->0, choice, step.team_role_id))
    } else {
        s.maps
    };
    let rem1 = remove_map(s.maps_remaining, choice);
    let last = order1.len() - 1;
    let p = plan(s.series_type, s.match_id->0, s.team_one->0, s.team_two->0);
    let w = s.maps_remaining.index_of(choice);
    assert(s.maps_remaining[w] == choice);
    assert(rem1.len() == s.maps_remaining.len() - 1);

    lemma_plan_shape(s.series_type, s.match_id->0, s.team_one->0, s.team_two->0);
    lemma_picks_among_same_types(order1, s.veto_pick_order, i);
    assert(maps1.len() == picks_among(order1, i + 1));
    lemma_picks_among_same_types(order1, p, order1.len() as int);

    if i == last {
        assert(rem1.len() == 0);
        assert(post.maps.len() == resolved_count(s.series_type));
    } else if i + 1 == last && rem1.len() == 1 && order1[last].step_type == StepType::Pick {
        assert(picks_among(order1, last + 1) == picks_among(order1, i + 1) + 1);
        assert(post.maps.len() == resolved_count(s.series_type));
    }
}

/// An accepted action moves exactly one cursor position: a veto step that
/// stays in the veto advances the step cursor by one, a side choice
/// advances the side cursor by one, and a transition resets the cursor for
/// the next phase.
pub proof fn lemma_accepted_action_advances(s: SessionModel, choice: Seq<char>)
    requires
        session_inv(s),
        s.current_phase != State::Completed,
        s.current_phase == State::MapVeto ==> s.maps_remaining.contains(choice),
    ensures
        s.current_phase == State::ServerPick ==> apply_action(s, choice).current_step == 0
            && apply_action(s, choice).current_phase == State::MapVeto,
        s.current_phase == State::MapVeto && apply_action(s, choice).current_phase
            == State::MapVeto ==> apply_action(s, choice).current_step == s.current_step + 1,
        s.current_phase == State::MapVeto && apply_action(s, choice).current_phase
            != State::MapVeto ==> apply_action(s, choice).current_phase == State::SidePick
            && apply_action(s, choice).current_step == 0,
        s.current_phase == State::SidePick ==> apply_action(s, choice).current_step
            == s.current_step + 1,
{
}

/// Side assignments are self-consistent: every map whose sides are chosen
/// has both sides assigned, to the two teams of the session, one each.
pub proof fn lemma_sides_consistent(s: SessionModel)
    requires
        session_inv(s),
    ensures
        forall|j: int| 0 <= j < sides_done(s) ==> {
            let m = #[trigger] s.maps[j];
            &&& m.start_attack is Some
            &&& m.start_defense is Some
            &&& m.start_attack != m.start_defense
            &&& (m.start_attack == Some(s.team_one->0) || m.start_attack == Some(s.team_two->0))
            &&& (m.start_defense == Some(s.team_one->0) || m.start_defense == Some(s.team_two->0))
        },
{
    assert forall|j: int| 0 <= j < sides_done(s) implies {
        let m = #[trigger] s.maps[j];
        &&& m.start_attack is Some
        &&& m.start_defense is Some
        &&& m.start_attack != m.start_defense
        &&& (m.start_attack == Some(s.team_one->0) || m.start_attack == Some(s.team_two->0))
        &&& (m.start_defense == Some(s.team_one->0) || m.start_defense == Some(s.team_two->0))
    } by {
        assert(0 <= j < s.maps.len());
        assert(sides_assigned(s.maps[j], s.team_one->0, s.team_two->0));
    }
}

/// Copies the remaining-pool list for a prompt.
fn clone_string_vec(v: &Vec<String>) -> (r: Vec<String>)
    ensures
        r.deep_view() == v.deep_view(),
{
    let mut r: Vec<String> = Vec::new();
    let mut k: usize = 0;
    while k < v.len()
        invariant
            0 <= k <= v.len(),
            r@ =~= v@.take(k as int),
        decreases v.len() - k,
    {
        r.push(v[k].clone());
        k = k + 1;
    }
    proof {
        assert(r@ =~= v@);
        assert(r.deep_view() =~= v.deep_view());
    }
    r
}

/// Takes the chosen map out of the remaining pool.
fn remove_from_pool(rem: &mut Vec<String>, choice: &str)
    requires
        old(rem).deep_view().contains(choice@),
        forall|i: int, j: int|
            0 <= i < old(rem).deep_view().len() && 0 <= j < old(rem).deep_view().len() && i != j
                ==> old(rem).deep_view()[i] != old(rem).deep_view()[j],
    ensures
        final(rem).deep_view() == remove_map(old(rem).deep_view(), choice@),
        final(rem).deep_view().len() == old(rem).deep_view().len() - 1,
{
    let ghost dv = old(rem).deep_view();
    let mut idx: usize = 0;
    while idx < rem.len() && !crate::types::str_eq(rem[idx].as_str(), choice)
        invariant
            0 <= idx <= rem.len(),
            dv == rem.deep_view(),
            dv.contains(choice@),
            forall|j: int| 0 <= j < idx ==> dv[j] != choice@,
        decreases rem.len() - idx,
    {
        idx = idx + 1;
    }
    proof {
        if idx == rem.len() {
            let w = dv.index_of(choice@);
            assert(dv[w] == choice@);
            assert(false);
        }
        assert(dv[idx as int] == choice@);
    }
    let ghost found: int = idx as int;
    rem.remove(idx);
    proof {
        let w = dv.index_of(choice@);
        assert(dv[w] == choice@);
        if w < found {
            assert(dv[w] != choice@);
        }
        if w > found {
            assert(exists|i: int| 0 <= i < dv.len() && dv[i] == choice@ && i <= found) by {
                assert(dv[found] == choice@);
            }
        }
        assert(rem.deep_view() =~= remove_map(dv, choice@));
    }
}

/// Renders the text that announces the side-pick phase.
fn side_begin_string(setup: &Setup) -> (r: String)
    requires
        ids_present(setup@),
        setup@.maps.len() > 0,
    ensures
        r@ == side_begin_text(setup@),
{
    let picker = setup.maps[0].picked_by;
    let chooser = if picker == setup.team_one.unwrap() {
        setup.team_two.unwrap()
    } else {
        setup.team_one.unwrap()
    };
    let mut s = String::from_str("Map veto completed.\nIt is ");
    s.append(mention_string(chooser).as_str());
    s.append(" turn to pick starting side for `");
    s.append(setup.maps[0].map.as_str());
    s.append("`");
    proof {
        assert(s@ =~= side_begin_text(setup@));
    }
    s
}

/// Renders the text that asks for the side of the current map.
fn side_next_string(setup: &Setup) -> (r: String)
    requires
        ids_present(setup@),
        0 <= setup@.current_step < setup@.maps.len(),
    ensures
        r@ == side_next_text(setup@),
{
    let picker = setup.maps[setup.current_step].picked_by;
    let chooser = if picker == setup.team_one.unwrap() {
        setup.team_two.unwrap()
    } else {
        setup.team_one.unwrap()
    };
    let mut s = String::from_str("It is ");
    s.append(mention_string(chooser).as_str());
    s.append(" turn to pick starting side on ");
    s.append(setup.maps[setup.current_step].map.as_str());
    proof {
        assert(s@ =~= side_next_text(setup@));
    }
    s
}

/// Renders the text of a veto round.
fn veto_round_string(setup: &Setup) -> (r: String)
    requires
        ids_present(setup@),
        0 <= setup@.current_step < setup@.veto_pick_order.len(),
    ensures
        r@ == veto_round_text(setup@),
{
    let mut s = veto_info_string(
        &setup.veto_pick_order,
        setup.team_one.unwrap(),
        &setup.team_one_name,
        &setup.team_two_name,
    );
    s.append("\nIt is ");
    s.append(mention_string(setup.veto_pick_order[setup.current_step].team_role_id).as_str());
    s.append(" turn to ");
    s.append(setup.veto_pick_order[setup.current_step].step_type.label());
    proof {
        assert(s@ =~= veto_round_text(setup@));
    }
    s
}


/// Handles one inbound action: resolves authorization, and when the acting
/// party holds the turn, applies the choice to the session and returns the
/// prompt to emit next; a rejected action leaves the session untouched.
/// During the veto the choice must be one of the offered maps, that is, of
/// the remaining pool.
pub fn process_action(setup: &mut Setup, party: i64, choice: &str) -> (r: Result<Prompt, Rejection>)
    requires
        session_inv(old(setup)@),
        old(setup)@.current_phase == State::MapVeto && rejection_of(old(setup)@, party as int)
            is None ==> old(setup)@.maps_remaining.contains(choice@),
    ensures
        match r {
            Err(rej) => *final(setup) == *old(setup) && rejection_of(old(setup)@, party as int)
                == Some(rej),
            Ok(p) => {
                &&& rejection_of(old(setup)@, party as int) is None
                &&& final(setup)@ == apply_action(old(setup)@, choice@)
                &&& p@ == prompt_of(final(setup)@, old(setup)@.current_phase)
                &&& session_inv(final(setup)@)
                &&& standard_pool(old(setup)@) ==> standard_pool(final(setup)@)
            },
        },
{
    let ghost pre = setup@;
    if let Err(rej) = authorize(setup, party) {
        return Err(rej);
    }
    proof {
        lemma_inv_preserved(pre, choice@);
    }
    match setup.current_phase {
        State::ServerPick => {
            setup.server_id = Some(String::from_str(choice));
            setup.current_phase = State::MapVeto;
            let text = veto_begin_string(
                setup.series_type,
                setup.team_one.unwrap(),
                setup.team_two.unwrap(),
            );
            let maps = clone_string_vec(&setup.maps_remaining);
            let step_type = setup.veto_pick_order[0].step_type;
            let prompt = Prompt::Veto { text, maps, step_type };
            proof {
                assert(setup@ =~= apply_server_pick(pre, choice@));
                assert(prompt@ =~= prompt_of(setup@, State::ServerPick));
            }
            Ok(prompt)
        },
        State::MapVeto => {
            let i = setup.current_step;
            let step_type = setup.veto_pick_order[i].step_type;
            let actor = setup.veto_pick_order[i].team_role_id;
            let step_match_id = setup.veto_pick_order[i].match_id;
            setup.veto_pick_order[i] = SetupStep {
                match_id: step_match_id,
                step_type,
                team_role_id: actor,
                map: Some(String::from_str(choice)),
            };
            if step_type == StepType::Pick {
                setup.maps.push(
                    SetupMap {
                        match_id: setup.match_id.unwrap(),
                        map: String::from_str(choice),
                        picked_by: actor,
                        start_attack_team_role_id: None,
                        start_defense_team_role_id: None,
                    },
                );
            }
            remove_from_pool(&mut setup.maps_remaining, choice);
            let len = setup.veto_pick_order.len();
            if i + 1 == len {
                if setup.maps_remaining.len() == 1 {
                    let decider = setup.maps_remaining.remove(0);
                    setup.maps.push(
                        SetupMap {
                            match_id: setup.match_id.unwrap(),
                            map: decider,
                            picked_by: actor,
                            start_attack_team_role_id: None,
                            start_defense_team_role_id: None,
                        },
                    );
                }
                setup.current_step = 0;
                setup.current_phase = State::SidePick;
                proof {
                    assert(setup@ =~= apply_map_veto(pre, choice@));
                }
                let prompt = Prompt::Side { text: side_begin_string(setup) };
                proof {
                    assert(prompt@ =~= prompt_of(setup@, State::MapVeto));
                }
                Ok(prompt)
            } else {
                let last = len - 1;
                let auto_decider = i + 1 == last && setup.maps_remaining.len() == 1
                    && setup.veto_pick_order[last].step_type == StepType::Pick;
                if auto_decider {
                    let decider = setup.maps_remaining.remove(0);
                    let last_actor = setup.veto_pick_order[last].team_role_id;
                    let last_match_id = setup.veto_pick_order[last].match_id;
                    setup.veto_pick_order[last] = SetupStep {
                        match_id: last_match_id,
                        step_type: StepType::Pick,
                        team_role_id: last_actor,
                        map: Some(decider.clone()),
                    };
                    setup.maps.push(
                        SetupMap {
                            match_id: setup.match_id.unwrap(),
                            map: decider,
                            picked_by: last_actor,
                            start_attack_team_role_id: None,
                            start_defense_team_role_id: None,
                        },
                    );
                    setup.current_step = 0;
                    setup.current_phase = State::SidePick;
                    proof {
                        assert(setup@ =~= apply_map_veto(pre, choice@));
                    }
                    let prompt = Prompt::Side { text: side_begin_string(setup) };
                    proof {
                        assert(prompt@ =~= prompt_of(setup@, State::MapVeto));
                    }
                    Ok(prompt)
                } else {
                    setup.current_step = i + 1;
                    proof {
                        assert(setup@ =~= apply_map_veto(pre, choice@));
                    }
                    let text = veto_round_string(setup);
                    let maps = clone_string_vec(&setup.maps_remaining);
                    let next_type = setup.veto_pick_order[i + 1].step_type;
                    let prompt = Prompt::Veto { text, maps, step_type: next_type };
                    proof {
                        assert(prompt@ =~= prompt_of(setup@, State::MapVeto));
                    }
                    Ok(prompt)
                }
            }
        },
        State::SidePick => {
            let i = setup.current_step;
            let one = setup.team_one.unwrap();
            let two = setup.team_two.unwrap();
            let picker = setup.maps[i].picked_by;
            let chooser = if picker == one {
                two
            } else {
                one
            };
            let is_ct = crate::types::str_eq(choice, "ct");
            let slot_match_id = setup.maps[i].match_id;
            let slot_map = setup.maps[i].map.clone();
            setup.maps[i] = SetupMap {
                match_id: slot_match_id,
                map: slot_map,
                picked_by: picker,
                start_attack_team_role_id: Some(
                    if is_ct {
                        picker
                    } else {
                        chooser
                    },
                ),
                start_defense_team_role_id: Some(
                    if is_ct {
                        chooser
                    } else {
                        picker
                    },
                ),
            };
            proof {
                assert(i < setup.maps.len());
            }
            setup.current_step = i + 1;
            if setup.current_step == setup.maps.len() {
                setup.current_phase = State::Completed;
                proof {
                    assert(setup@ =~= apply_side_pick(pre, choice@));
                    assert(Prompt::Done@ =~= prompt_of(setup@, State::SidePick));
                }
                Ok(Prompt::Done)
            } else {
                proof {
                    assert(setup@ =~= apply_side_pick(pre, choice@));
                }
                let prompt = Prompt::Side { text: side_next_string(setup) };
                proof {
                    assert(prompt@ =~= prompt_of(setup@, State::SidePick));
                }
                Ok(prompt)
            }
        },
        State::Completed => {
            proof {
                assert(false);
            }
            Err(Rejection::WrongTurn)
        },
    }
}

} // verus!
