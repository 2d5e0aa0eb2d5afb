//! The mutable state of one in-progress match-setup negotiation, together
//! with its mathematical model and well-formedness invariant.

use vstd::prelude::*;

use crate::types::{SeriesType, State, StepType};

verus! {

/// One entry of the veto order: which team acts, whether the step bans or
/// picks, and (once the step has run) which map it resolved.
#[derive(Debug, Clone)]
pub struct SetupStep {
    pub match_id: i32,
    pub step_type: StepType,
    pub team_role_id: i64,
    pub map: Option<String>,
}

/// One resolved map of the series: who picked it and, once the side-pick
/// phase has reached it, which team starts on each side.
#[derive(Debug, Clone)]
pub struct SetupMap {
    pub match_id: i32,
    pub map: String,
    pub picked_by: i64,
    pub start_attack_team_role_id: Option<i64>,
    pub start_defense_team_role_id: Option<i64>,
}

/// A recorded ban, kept for narration.
#[derive(Debug, Clone)]
pub struct Veto {
    pub map: String,
    pub vetoed_by: u64,
}

/// The state container of one negotiation.
#[derive(Debug, Clone)]
pub struct Setup {
    pub team_one: Option<i64>,
    pub team_two: Option<i64>,
    pub team_one_name: String,
    pub team_two_name: String,
    pub team_one_conn_str: Option<String>,
    pub team_two_conn_str: Option<String>,
    pub maps_remaining: Vec<String>,
    pub maps: Vec<SetupMap>,
    pub vetoes: Vec<Veto>,
    pub series_type: SeriesType,
    pub match_id: Option<i32>,
    pub veto_pick_order: Vec<SetupStep>,
    pub current_step: usize,
    pub current_phase: State,
    pub server_id: Option<String>,
}

/// Model of a veto-order entry.
#[verifier::ext_equal]
pub ghost struct StepModel {
    pub match_id: int,
    pub step_type: StepType,
    pub team_role_id: int,
    pub map: Option<Seq<char>>,
}

/// Model of a resolved series map.
#[verifier::ext_equal]
pub ghost struct MapSlotModel {
    pub match_id: int,
    pub map: Seq<char>,
    pub picked_by: int,
    pub start_attack: Option<int>,
    pub start_defense: Option<int>,
}

/// Model of a recorded ban.
#[verifier::ext_equal]
pub ghost struct VetoModel {
    pub map: Seq<char>,
    pub vetoed_by: int,
}

/// Model of the whole session.
#[verifier::ext_equal]
pub ghost struct SessionModel {
    pub team_one: Option<int>,
    pub team_two: Option<int>,
    pub team_one_name: Seq<char>,
    pub team_two_name: Seq<char>,
    pub team_one_conn_str: Option<Seq<char>>,
    pub team_two_conn_str: Option<Seq<char>>,
    pub maps_remaining: Seq<Seq<char>>,
    pub maps: Seq<MapSlotModel>,
    pub vetoes: Seq<VetoModel>,
    pub series_type: SeriesType,
    pub match_id: Option<int>,
    pub veto_pick_order: Seq<StepModel>,
    pub current_step: int,
    pub current_phase: State,
    pub server_id: Option<Seq<char>>,
}

/// An optional machine integer, widened to a mathematical one.
pub open spec fn opt_int_i64(x: Option<i64>) -> Option<int> {
    match x {
        Some(v) => Some(v as int),
        None => None,
    }
}

/// An optional machine integer, widened to a mathematical one.
pub open spec fn opt_int_i32(x: Option<i32>) -> Option<int> {
    match x {
        Some(v) => Some(v as int),
        None => None,
    }
}

impl View for SetupStep {
    type V = StepModel;

    open spec fn view(&self) -> StepModel {
        StepModel {
            match_id: self.match_id as int,
            step_type: self.step_type,
            team_role_id: self.team_role_id as int,
            map: self.map.deep_view(),
        }
    }
}

impl DeepView for SetupStep {
    type V = StepModel;

    open spec fn deep_view(&self) -> StepModel {
        self.view()
    }
}

impl View for SetupMap {
    type V = MapSlotModel;

    open spec fn view(&self) -> MapSlotModel {
        MapSlotModel {
            match_id: self.match_id as int,
            map: self.map@,
            picked_by: self.picked_by as int,
            start_attack: opt_int_i64(self.start_attack_team_role_id),
            start_defense: opt_int_i64(self.start_defense_team_role_id),
        }
    }
}

impl DeepView for SetupMap {
    type V = MapSlotModel;

    open spec fn deep_view(&self) -> MapSlotModel {
        self.view()
    }
}

impl View for Veto {
    type V = VetoModel;

    open spec fn view(&self) -> VetoModel {
        VetoModel { map: self.map@, vetoed_by: self.vetoed_by as int }
    }
}

impl DeepView for Veto {
    type V = VetoModel;

    open spec fn deep_view(&self) -> VetoModel {
        self.view()
    }
}

impl View for Setup {
    type V = SessionModel;

    open spec fn view(&self) -> SessionModel {
        SessionModel {
            team_one: opt_int_i64(self.team_one),
            team_two: opt_int_i64(self.team_two),
            team_one_name: self.team_one_name@,
            team_two_name: self.team_two_name@,
            team_one_conn_str: self.team_one_conn_str.deep_view(),
            team_two_conn_str: self.team_two_conn_str.deep_view(),
            maps_remaining: self.maps_remaining.deep_view(),
            maps: self.maps.deep_view(),
            vetoes: self.vetoes.deep_view(),
            series_type: self.series_type,
            match_id: opt_int_i32(self.match_id),
            veto_pick_order: self.veto_pick_order.deep_view(),
            current_step: self.current_step as int,
            current_phase: self.current_phase,
            server_id: self.server_id.deep_view(),
        }
    }
}

} // verus!
