//! The setup finalizer: the rows a completed negotiation persists, and the
//! all-or-nothing effect of the finalize transaction on the store.

use vstd::prelude::*;

use crate::models::{Match, MatchModel, NewMatchSetupStep, NewSeriesMap};
use crate::planner::ids_present;
use crate::session::{MapSlotModel, SessionModel, Setup, StepModel};
use crate::types::MatchState;

verus! {

/// A failed finalize transaction.
#[derive(Debug, Clone, Copy, PartialEq, Eq, Structural)]
pub struct PersistenceError;

/// The store state the finalizer acts on: persisted setup steps, persisted
/// series maps, and the match rows.
#[derive(Debug)]
pub struct MatchStore {
    pub setup_steps: Vec<NewMatchSetupStep>,
    pub series_maps: Vec<NewSeriesMap>,
    pub matches: Vec<Match>,
}

/// Model of the store.
#[verifier::ext_equal]
pub ghost struct StoreModel {
    pub setup_steps: Seq<StepModel>,
    pub series_maps: Seq<MapSlotModel>,
    pub matches: Seq<MatchModel>,
}

impl View for MatchStore {
    type V = StoreModel;

    open spec fn view(&self) -> StoreModel {
        StoreModel {
            setup_steps: self.setup_steps.deep_view(),
            series_maps: self.series_maps.deep_view(),
            matches: self.matches.deep_view(),
        }
    }
}

/// A veto-order step as the row the finalizer writes: the session's match
/// id replaces whatever the step carried.
pub open spec fn step_record(st: StepModel, mid: int) -> StepModel {
    StepModel { match_id: mid, ..st }
}

/// A resolved map as the row the finalizer writes.
pub open spec fn map_record(m: MapSlotModel, mid: int) -> MapSlotModel {
    MapSlotModel { match_id: mid, ..m }
}

/// The setup-step rows a session persists.
pub open spec fn setup_step_records(s: SessionModel) -> Seq<StepModel> {
    s.veto_pick_order.map_values(|st: StepModel| step_record(st, s.match_id->0))
}

/// The series-map rows a session persists.
pub open spec fn series_map_records(s: SessionModel) -> Seq<MapSlotModel> {
    s.maps.map_values(|m: MapSlotModel| map_record(m, s.match_id->0))
}

/// The match rows with the session's match marked completed.
pub open spec fn mark_completed(rows: Seq<MatchModel>, mid: int) -> Seq<MatchModel> {
    rows.map_values(
        |r: MatchModel|
            if r.id == Some(mid) {
                MatchModel { match_state: MatchState::Completed, ..r }
            } else {
                r
            },
    )
}

/// Builds the rows a completed session persists: one setup-step row per
/// veto-order entry and one series-map row per resolved map, all under the
/// session's match id.
pub fn finalize_records(setup: &Setup) -> (r: (Vec<NewMatchSetupStep>, Vec<NewSeriesMap>))
    requires
        ids_present(setup@),
    ensures
        r.0.deep_view() == setup_step_records(setup@),
        r.1.deep_view() == series_map_records(setup@),
{
    let match_id = setup.match_id.unwrap();
    let mut steps: Vec<NewMatchSetupStep> = Vec::new();
    let mut k: usize = 0;
    while k < setup.veto_pick_order.len()
        invariant
            0 <= k <= setup.veto_pick_order.len(),
            match_id as int == setup@.match_id->0,
            steps@.len() == k as int,
            steps.deep_view() == setup@.veto_pick_order.map_values(
                |st: StepModel| step_record(st, match_id as int),
            ).take(k as int),
        decreases setup.veto_pick_order.len() - k,
    {
        let step = &setup.veto_pick_order[k];
        let row = NewMatchSetupStep {
            match_id,
            step_type: step.step_type,
            team_role_id: step.team_role_id,
            map: match &step.map {
                Some(m) => Some(m.clone()),
                None => None,
            },
        };
        proof {
            assert(row@ =~= step_record(setup@.veto_pick_order[k as int], match_id as int));
        }
        steps.push(row);
        k = k + 1;
        proof {
            let target = setup@.veto_pick_order.map_values(
                |st: StepModel| step_record(st, match_id as int),
            );
            assert(target.len() == setup@.veto_pick_order.len());
            assert(steps.deep_view() =~= target.take(k as int));
        }
    }
    let mut rows: Vec<NewSeriesMap> = Vec::new();
    let mut j: usize = 0;
    while j < setup.maps.len()
        invariant
            0 <= j <= setup.maps.len(),
            match_id as int == setup@.match_id->0,
            rows@.len() == j as int,
            rows.deep_view() == setup@.maps.map_values(
                |m: MapSlotModel| map_record(m, match_id as int),
            ).take(j as int),
        decreases setup.maps.len() - j,
    {
        let slot = &setup.maps[j];
        rows.push(
            NewSeriesMap {
                match_id,
                map: slot.map.clone(),
                picked_by_role_id: slot.picked_by,
                start_attack_team_role_id: slot.start_attack_team_role_id,
                start_defense_team_role_id: slot.start_defense_team_role_id,
            },
        );
        j = j + 1;
        proof {
            let target = setup@.maps.map_values(|m: MapSlotModel| map_record(m, match_id as int));
            assert(target.len() == setup@.maps.len());
            assert(rows.deep_view() =~= target.take(j as int));
        }
    }
    proof {
        assert(steps.deep_view() =~= setup_step_records(setup@));
        assert(rows.deep_view() =~= series_map_records(setup@));
    }
    (steps, rows)
}

/// Finalizes a session against the store: within one transaction every
/// veto-order step and every resolved map is persisted and the match row is
/// marked completed — or, when the backing transaction fails (`commit_ok`
/// false, as the caller's store reports it), nothing at all is written and
/// the store is exactly what it was.
pub fn finish_setup(store: &mut MatchStore, setup: &Setup, commit_ok: bool) -> (r: Result<
    (),
    PersistenceError,
>)
    requires
        ids_present(setup@),
    ensures
        commit_ok ==> r == Ok::<(), PersistenceError>(()) && final(store)@ == (StoreModel {
            setup_steps: old(store)@.setup_steps + setup_step_records(setup@),
            series_maps: old(store)@.series_maps + series_map_records(setup@),
            matches: mark_completed(old(store)@.matches, setup@.match_id->0),
        }),
        !commit_ok ==> r == Err::<(), PersistenceError>(PersistenceError) && *final(store) == *old(
            store,
        ),
{
    if !commit_ok {
        return Err(PersistenceError);
    }
    let ghost pre = store@;
    let match_id = setup.match_id.unwrap();
    let (mut steps, mut rows) = finalize_records(setup);
    store.setup_steps.append(&mut steps);
    store.series_maps.append(&mut rows);
    let mut k: usize = 0;
    while k < store.matches.len()
        invariant
            0 <= k <= store.matches.len(),
            match_id as int == setup@.match_id->0,
            store@.setup_steps == pre.setup_steps + setup_step_records(setup@),
            store@.series_maps == pre.series_maps + series_map_records(setup@),
            store@.matches.len() == pre.matches.len(),
            forall|j: int| 0 <= j < k ==> store@.matches[j] == mark_completed(
                pre.matches,
                match_id as int,
            )[j],
            forall|j: int| k <= j < pre.matches.len() ==> store@.matches[j] == pre.matches[j],
        decreases store.matches.len() - k,
    {
        let is_this_match = match store.matches[k].id {
            Some(id) => id == match_id,
            None => false,
        };
        if is_this_match {
            let row = &store.matches[k];
            let updated = Match {
                id: row.id,
                team_one_role_id: row.team_one_role_id,
                team_one_name: row.team_one_name.clone(),
                team_two_role_id: row.team_two_role_id,
                team_two_name: row.team_two_name.clone(),
                note: match &row.note {
                    Some(n) => Some(n.clone()),
                    None => None,
                },
                date_added: row.date_added,
                match_state: MatchState::Completed,
                scheduled_time_str: match &row.scheduled_time_str {
                    Some(t) => Some(t.clone()),
                    None => None,
                },
                series_type: row.series_type,
            };
            proof {
                assert(updated@ =~= MatchModel {
                    match_state: MatchState::Completed,
                    ..pre.matches[k as int]
                });
            }
            store.matches[k] = updated;
        }
        k = k + 1;
    }
    proof {
        assert(store@.matches =~= mark_completed(pre.matches, match_id as int));
        assert(store@ =~= StoreModel {
            setup_steps: pre.setup_steps + setup_step_records(setup@),
            series_maps: pre.series_maps + series_map_records(setup@),
            matches: mark_completed(pre.matches, match_id as int),
        });
    }
    Ok(())
}

} // verus!
