//! Row types of the backing store and their models: users, matches, setup
//! steps, series maps, servers and tokens.

use vstd::prelude::*;

use crate::session::{opt_int_i32, opt_int_i64, MapSlotModel, StepModel};
use crate::types::{MatchState, SeriesType, StepType};

verus! {

/// A registered user: a chat identity and its stored game identity.
#[derive(Debug, Clone)]
pub struct User {
    pub id: i32,
    pub discord_id: i64,
    pub steam_id: String,
}

/// A user row to insert.
#[derive(Debug, Clone)]
pub struct NewUser {
    pub discord_id: i64,
    pub steam_id: String,
}

/// A scheduled match between two team roles. The creation time is carried
/// as a unix timestamp in seconds.
#[derive(Debug, Clone)]
pub struct Match {
    pub id: Option<i32>,
    pub team_one_role_id: i64,
    pub team_one_name: String,
    pub team_two_role_id: i64,
    pub team_two_name: String,
    pub note: Option<String>,
    pub date_added: i64,
    pub match_state: MatchState,
    pub scheduled_time_str: Option<String>,
    pub series_type: SeriesType,
}

/// A match row to insert.
#[derive(Debug, Clone)]
pub struct NewMatch {
    pub team_one_role_id: i64,
    pub team_one_name: String,
    pub team_two_role_id: i64,
    pub team_two_name: String,
    pub note: Option<String>,
    pub series_type: SeriesType,
    pub date_added: i64,
    pub match_state: MatchState,
}

/// A persisted veto-order step of a match.
#[derive(Debug, Clone)]
pub struct MatchSetupStep {
    pub id: Option<i32>,
    pub match_id: i32,
    pub step_type: StepType,
    pub team_role_id: i64,
    pub map: Option<String>,
}

/// A setup-step row to insert.
#[derive(Debug, Clone)]
pub struct NewMatchSetupStep {
    pub match_id: i32,
    pub step_type: StepType,
    pub team_role_id: i64,
    pub map: Option<String>,
}

/// A persisted resolved map of a series.
#[derive(Debug, Clone)]
pub struct SeriesMap {
    pub id: Option<i32>,
    pub match_id: i32,
    pub map: String,
    pub picked_by_role_id: i64,
    pub start_attack_team_role_id: Option<i64>,
    pub start_defense_team_role_id: Option<i64>,
}

/// A series-map row to insert.
#[derive(Debug, Clone)]
pub struct NewSeriesMap {
    pub match_id: i32,
    pub map: String,
    pub picked_by_role_id: i64,
    pub start_attack_team_role_id: Option<i64>,
    pub start_defense_team_role_id: Option<i64>,
}

/// A hosting server offered at server pick.
#[derive(Debug, Clone)]
pub struct MatchServer {
    pub region_label: String,
    pub server_id: String,
}

/// A game-server login token and whether a server currently uses it.
#[derive(Debug, Clone)]
pub struct GsltToken {
    pub token: String,
    pub in_use: bool,
}

/// One map of the selectable pool.
#[derive(Debug, Clone)]
pub struct GameMap {
    pub name: String,
}

/// An error carrying a message and a status code, used when a stored
/// enumeration value cannot be read back.
#[derive(Debug)]
pub struct CustomError {
    pub msg: String,
    pub status: u16,
}

impl CustomError {
    /// The not-found error for a message.
    pub fn not_found(msg: String) -> (r: Self)
        ensures
            r.msg@ == msg@,
            r.status == 404,
    {
        Self { msg, status: 404 }
    }
}

/// Model of a match row.
#[verifier::ext_equal]
pub ghost struct MatchModel {
    pub id: Option<int>,
    pub team_one_role_id: int,
    pub team_one_name: Seq<char>,
    pub team_two_role_id: int,
    pub team_two_name: Seq<char>,
    pub note: Option<Seq<char>>,
    pub date_added: int,
    pub match_state: MatchState,
    pub scheduled_time_str: Option<Seq<char>>,
    pub series_type: SeriesType,
}

impl View for Match {
    type V = MatchModel;

    open spec fn view(&self) -> MatchModel {
        MatchModel {
            id: opt_int_i32(self.id),
            team_one_role_id: self.team_one_role_id as int,
            team_one_name: self.team_one_name@,
            team_two_role_id: self.team_two_role_id as int,
            team_two_name: self.team_two_name@,
            note: self.note.deep_view(),
            date_added: self.date_added as int,
            match_state: self.match_state,
            scheduled_time_str: self.scheduled_time_str.deep_view(),
            series_type: self.series_type,
        }
    }
}

impl DeepView for Match {
    type V = MatchModel;

    open spec fn deep_view(&self) -> MatchModel {
        self.view()
    }
}

/// The step data of a persisted setup step, its row id left aside: what
/// narration and persistence read.
pub open spec fn step_data(m: MatchSetupStep) -> StepModel {
    StepModel {
        match_id: m.match_id as int,
        step_type: m.step_type,
        team_role_id: m.team_role_id as int,
        map: m.map.deep_view(),
    }
}

impl View for NewMatchSetupStep {
    type V = StepModel;

    open spec fn view(&self) -> StepModel {
        StepModel {
            match_id: self.match_id as int,
            step_type: self.step_type,
            team_role_id: self.team_role_id as int,
            map: self.map.deep_view(),
        }
    }
}

impl DeepView for NewMatchSetupStep {
    type V = StepModel;

    open spec fn deep_view(&self) -> StepModel {
        self.view()
    }
}

impl View for NewSeriesMap {
    type V = MapSlotModel;

    open spec fn view(&self) -> MapSlotModel {
        MapSlotModel {
            match_id: self.match_id as int,
            map: self.map@,
            picked_by: self.picked_by_role_id as int,
            start_attack: opt_int_i64(self.start_attack_team_role_id),
            start_defense: opt_int_i64(self.start_defense_team_role_id),
        }
    }
}

impl DeepView for NewSeriesMap {
    type V = MapSlotModel;

    open spec fn deep_view(&self) -> MapSlotModel {
        self.view()
    }
}

/// The match state a listing filters by: completed matches when asked for,
/// otherwise the scheduled ones.
pub fn list_filter_state(show_completed: bool) -> (r: MatchState)
    ensures
        show_completed ==> r == MatchState::Completed,
        !show_completed ==> r == MatchState::Scheduled,
{
    if show_completed {
        MatchState::Completed
    } else {
        MatchState::Scheduled
    }
}

} // verus!
