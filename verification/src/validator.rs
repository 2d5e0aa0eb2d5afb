//! The turn validator: who may act on a session in its current phase, and
//! how an action from anyone else is rejected.

use vstd::prelude::*;

use crate::planner::ids_present;
use crate::session::{SessionModel, Setup};
use crate::types::State;

verus! {

/// Why an action was turned away. Rejections never change session state.
#[derive(Debug, Clone, Copy, PartialEq, Eq, Structural)]
pub enum Rejection {
    /// The acting identity belongs to neither team of the session.
    NotParticipant,
    /// The acting identity belongs to a team, but it is not that team's turn.
    WrongTurn,
}

/// The opposite team of `t` within the session.
pub open spec fn other_team(s: SessionModel, t: int) -> int {
    if t == s.team_one->0 {
        s.team_two->0
    } else {
        s.team_one->0
    }
}

/// Whether `party` is one of the session's two teams.
pub open spec fn is_participant(s: SessionModel, party: int) -> bool {
    party == s.team_one->0 || party == s.team_two->0
}

/// The team whose turn it is in the current phase: team two picks the
/// server, the current veto-order actor bans or picks, and the team that
/// did not pick the current map chooses its side. Nobody may act once the
/// session is completed.
pub open spec fn turn_of(s: SessionModel) -> Option<int> {
    match s.current_phase {
        State::ServerPick => Some(s.team_two->0),
        State::MapVeto => Some(s.veto_pick_order[s.current_step].team_role_id),
        State::SidePick => Some(other_team(s, s.maps[s.current_step].picked_by)),
        State::Completed => None,
    }
}

/// How an action from `party` is judged: `None` means the party may act.
pub open spec fn rejection_of(s: SessionModel, party: int) -> Option<Rejection> {
    if !is_participant(s, party) {
        Some(Rejection::NotParticipant)
    } else if turn_of(s) == Some(party) {
        None
    } else {
        Some(Rejection::WrongTurn)
    }
}

/// Resolves the acting identity to one of the session's teams from the
/// membership facts the caller obtained, preferring team one when the
/// identity belongs to both.
pub fn resolve_party(setup: &Setup, in_team_one: bool, in_team_two: bool) -> (r: Result<
    i64,
    Rejection,
>)
    requires
        ids_present(setup@),
    ensures
        in_team_one ==> r == Ok::<i64, Rejection>(setup.team_one->0),
        !in_team_one && in_team_two ==> r == Ok::<i64, Rejection>(setup.team_two->0),
        !in_team_one && !in_team_two ==> r == Err::<i64, Rejection>(Rejection::NotParticipant),
{
    if in_team_one {
        Ok(setup.team_one.unwrap())
    } else if in_team_two {
        Ok(setup.team_two.unwrap())
    } else {
        Err(Rejection::NotParticipant)
    }
}

/// Decides whether `party` may act on the session now; a purely
/// informational decision that never changes state.
pub fn authorize(setup: &Setup, party: i64) -> (r: Result<(), Rejection>)
    requires
        ids_present(setup@),
        setup@.current_phase == State::MapVeto ==> 0 <= setup@.current_step
            < setup@.veto_pick_order.len(),
        setup@.current_phase == State::SidePick ==> 0 <= setup@.current_step < setup@.maps.len(),
    ensures
        r == match rejection_of(setup@, party as int) {
            Some(rej) => Err::<(), Rejection>(rej),
            None => Ok::<(), Rejection>(()),
        },
{
    let team_one = setup.team_one.unwrap();
    let team_two = setup.team_two.unwrap();
    if party != team_one && party != team_two {
        return Err(Rejection::NotParticipant);
    }
    let holder: i64 = match setup.current_phase {
        State::ServerPick => team_two,
        State::MapVeto => setup.veto_pick_order[setup.current_step].team_role_id,
        State::SidePick => {
            let picker = setup.maps[setup.current_step].picked_by;
            if picker == team_one {
                team_two
            } else {
                team_one
            }
        },
        State::Completed => {
            return Err(Rejection::WrongTurn);
        },
    };
    if party == holder {
        Ok(())
    } else {
        Err(Rejection::WrongTurn)
    }
}

} // verus!
