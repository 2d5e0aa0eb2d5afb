//! Core enumerations of the match-setup protocol.

use vstd::prelude::*;

verus! {

/// The shape of a series: a single map, best of three, or best of five.
#[derive(Debug, Clone, Copy, PartialEq, Eq, Structural)]
pub enum SeriesType {
    Bo1,
    Bo3,
    Bo5,
}

/// What a veto-order step does: remove a map from the pool, or select one to play.
#[derive(Debug, Clone, Copy, PartialEq, Eq, Structural)]
pub enum StepType {
    Veto,
    Pick,
}

/// Lifecycle of a match record in the store.
#[derive(Debug, Clone, Copy, PartialEq, Eq, Structural)]
pub enum MatchState {
    Entered,
    Scheduled,
    Completed,
}

/// Phase of a running setup negotiation. Phases only move forward:
/// `ServerPick` to `MapVeto` to `SidePick` to `Completed`.
#[derive(Debug, Clone, Copy, PartialEq, Eq, Structural)]
pub enum State {
    MapVeto,
    SidePick,
    ServerPick,
    Completed,
}

impl SeriesType {
    /// Parses the short series-type names used by the command interface.
    pub fn from_str(input: &str) -> (r: Result<SeriesType, ()>)
        ensures
            input@ == "bo1"@ ==> r == Ok::<SeriesType, ()>(SeriesType::Bo1),
            input@ == "bo3"@ ==> r == Ok::<SeriesType, ()>(SeriesType::Bo3),
            input@ == "bo5"@ ==> r == Ok::<SeriesType, ()>(SeriesType::Bo5),
            input@ != "bo1"@ && input@ != "bo3"@ && input@ != "bo5"@ ==> r == Err::<SeriesType, ()>(()),
    {
        proof {
            reveal_strlit("bo1");
            reveal_strlit("bo3");
            reveal_strlit("bo5");
            assert("bo1"@[2] == '1' && "bo3"@[2] == '3' && "bo5"@[2] == '5');
        }
        if str_eq(input, "bo1") {
            Ok(SeriesType::Bo1)
        } else if str_eq(input, "bo3") {
            Ok(SeriesType::Bo3)
        } else if str_eq(input, "bo5") {
            Ok(SeriesType::Bo5)
        } else {
            Err(())
        }
    }
}

/// The verb a prompt uses for a step: `ban` for a veto, `pick` for a pick.
pub open spec fn step_verb(t: StepType) -> Seq<char> {
    if t == StepType::Veto {
        "ban"@
    } else {
        "pick"@
    }
}

impl StepType {
    /// The verb shown to users for this step, as the prompt text spells it.
    pub fn label(&self) -> (r: &'static str)
        ensures
            r@ == step_verb(*self),
    {
        match self {
            StepType::Veto => "ban",
            StepType::Pick => "pick",
        }
    }
}

/// A slash command of the chat interface.
#[derive(Debug, Clone, Copy, PartialEq, Eq, Structural)]
pub enum Command {
    AddMatch,
    DeleteMatch,
    Maps,
    Match,
    Matches,
    Schedule,
    Setup,
    SteamId,
}

impl Command {
    /// Parses a command name as the chat interface spells it.
    pub fn from_str(input: &str) -> (r: Result<Command, ()>)
        ensures
            input@ == "addmatch"@ ==> r == Ok::<Command, ()>(Command::AddMatch),
            input@ == "deletematch"@ ==> r == Ok::<Command, ()>(Command::DeleteMatch),
            input@ == "maps"@ ==> r == Ok::<Command, ()>(Command::Maps),
            input@ == "match"@ ==> r == Ok::<Command, ()>(Command::Match),
            input@ == "matches"@ ==> r == Ok::<Command, ()>(Command::Matches),
            input@ == "schedule"@ ==> r == Ok::<Command, ()>(Command::Schedule),
            input@ == "setup"@ ==> r == Ok::<Command, ()>(Command::Setup),
            input@ == "steamid"@ ==> r == Ok::<Command, ()>(Command::SteamId),
            input@ != "addmatch"@ && input@ != "deletematch"@ && input@ != "maps"@ && input@
                != "match"@ && input@ != "matches"@ && input@ != "schedule"@ && input@ != "setup"@
                && input@ != "steamid"@ ==> r == Err::<Command, ()>(()),
    {
        proof {
            reveal_strlit("addmatch");
            reveal_strlit("deletematch");
            reveal_strlit("maps");
            reveal_strlit("match");
            reveal_strlit("matches");
            reveal_strlit("schedule");
            reveal_strlit("setup");
            reveal_strlit("steamid");
            assert("addmatch"@.len() == 8 && "deletematch"@.len() == 11 && "maps"@.len() == 4
                && "match"@.len() == 5 && "matches"@.len() == 7 && "schedule"@.len() == 8
                && "setup"@.len() == 5 && "steamid"@.len() == 7);
            assert("addmatch"@[0] == 'a' && "schedule"@[0] == 's');
            assert("match"@[0] == 'm' && "setup"@[0] == 's');
            assert("matches"@[0] == 'm' && "steamid"@[0] == 's');
        }
        if str_eq(input, "addmatch") {
            Ok(Command::AddMatch)
        } else if str_eq(input, "deletematch") {
            Ok(Command::DeleteMatch)
        } else if str_eq(input, "maps") {
            Ok(Command::Maps)
        } else if str_eq(input, "match") {
            Ok(Command::Match)
        } else if str_eq(input, "matches") {
            Ok(Command::Matches)
        } else if str_eq(input, "schedule") {
            Ok(Command::Schedule)
        } else if str_eq(input, "setup") {
            Ok(Command::Setup)
        } else if str_eq(input, "steamid") {
            Ok(Command::SteamId)
        } else {
            Err(())
        }
    }
}

/// Relies on `<str as PartialEq>::eq` from std: equality of two string
/// slices is equality of their character sequences.
#[verifier::external_body]
pub(crate) fn str_eq(a: &str, b: &str) -> (r: bool)
    ensures
        r == (a@ == b@),
{
    a == b
}

} // verus!
