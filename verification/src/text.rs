//! Verified text rendering: decimal numbers, role mentions, and the
//! narrative messages the negotiation emits.

use vstd::prelude::*;

use crate::models::{Match, MatchModel, MatchSetupStep};
use crate::session::{MapSlotModel, SessionModel, Setup, SetupStep, StepModel};
use crate::types::StepType;

verus! {

/// The lower-case folding of a character sequence, as `str::to_lowercase`
/// computes it.
pub uninterp spec fn lower_of(s: Seq<char>) -> Seq<char>;

/// Relies on `str::to_lowercase`: the result is a function of the input
/// characters alone, and an empty string stays empty.
#[verifier::external_body]
pub(crate) fn lowercase(s: &str) -> (r: String)
    ensures
        r@ == lower_of(s@),
        s@.len() == 0 ==> r@.len() == 0,
{
    s.to_lowercase()
}

/// The decimal digit character for a value below ten.
pub open spec fn digit_char(d: int) -> char {
    if d == 0 {
        '0'
    } else if d == 1 {
        '1'
    } else if d == 2 {
        '2'
    } else if d == 3 {
        '3'
    } else if d == 4 {
        '4'
    } else if d == 5 {
        '5'
    } else if d == 6 {
        '6'
    } else if d == 7 {
        '7'
    } else if d == 8 {
        '8'
    } else {
        '9'
    }
}

/// The decimal rendering of a natural number, most significant digit first.
pub open spec fn dec_nat(n: nat) -> Seq<char>
    decreases n,
{
    if n < 10 {
        seq![digit_char(n as int)]
    } else {
        dec_nat(n / 10).push(digit_char((n % 10) as int))
    }
}

/// The decimal rendering of an integer: a minus sign before the magnitude
/// when the value is negative.
pub open spec fn dec_int(n: int) -> Seq<char> {
    if n < 0 {
        seq!['-'] + dec_nat((-n) as nat)
    } else {
        dec_nat(n as nat)
    }
}

/// A single decimal digit as a string slice.
fn digit_str(d: u64) -> (r: &'static str)
    requires
        d < 10,
    ensures
        r@ == seq![digit_char(d as int)],
{
    proof {
        reveal_strlit("0");
        reveal_strlit("1");
        reveal_strlit("2");
        reveal_strlit("3");
        reveal_strlit("4");
        reveal_strlit("5");
        reveal_strlit("6");
        reveal_strlit("7");
        reveal_strlit("8");
        reveal_strlit("9");
    }
    let r: &'static str = if d == 0 {
        "0"
    } else if d == 1 {
        "1"
    } else if d == 2 {
        "2"
    } else if d == 3 {
        "3"
    } else if d == 4 {
        "4"
    } else if d == 5 {
        "5"
    } else if d == 6 {
        "6"
    } else if d == 7 {
        "7"
    } else if d == 8 {
        "8"
    } else {
        "9"
    };
    proof {
        assert(r@ =~= seq![digit_char(d as int)]);
    }
    r
}

/// Renders an unsigned number in decimal.
pub fn u64_string(n: u64) -> (r: String)
    ensures
        r@ == dec_nat(n as nat),
    decreases n,
{
    if n < 10 {
        String::from_str(digit_str(n))
    } else {
        let mut s = u64_string(n / 10);
        s.append(digit_str(n % 10));
        proof {
            assert(s@ =~= dec_nat(n as nat));
        }
        s
    }
}

/// Renders a signed number in decimal.
pub fn i64_string(n: i64) -> (r: String)
    ensures
        r@ == dec_int(n as int),
{
    if n >= 0 {
        u64_string(n as u64)
    } else {
        let magnitude: u64 = if n == i64::MIN {
            9223372036854775808u64
        } else {
            (-n) as u64
        };
        let mut s = String::from_str("-");
        s.append(u64_string(magnitude).as_str());
        proof {
            reveal_strlit("-");
            assert("-"@ =~= seq!['-']);
            assert(s@ =~= dec_int(n as int));
        }
        s
    }
}

/// The mention markup `<@&id>` by which prompts address a team role.
pub open spec fn mention(role: int) -> Seq<char> {
    "<@&"@ + dec_int(role) + ">"@
}

/// Renders a role mention.
pub fn mention_string(role: i64) -> (r: String)
    ensures
        r@ == mention(role as int),
{
    let mut s = String::from_str("<@&");
    s.append(i64_string(role).as_str());
    s.append(">");
    proof {
        assert(s@ =~= mention(role as int));
    }
    s
}

/// The name of the team a veto-order step belongs to: team one's name when
/// the step's role is team one's, team two's otherwise.
pub open spec fn actor_name(
    step: StepModel,
    team_one: int,
    team_one_name: Seq<char>,
    team_two_name: Seq<char>,
) -> Seq<char> {
    if step.team_role_id == team_one {
        team_one_name
    } else {
        team_two_name
    }
}

/// One diff-markup line of the veto narration: `- <team> banned <map>` for
/// bans, `+ <team> picked <map>` for picks, with the map name folded to
/// lower case.
pub open spec fn veto_line(
    step: StepModel,
    team_one: int,
    team_one_name: Seq<char>,
    team_two_name: Seq<char>,
) -> Seq<char> {
    let name = actor_name(step, team_one, team_one_name, team_two_name);
    if step.step_type == StepType::Veto {
        "- "@ + name + " banned "@ + lower_of(step.map->0) + "\n"@
    } else {
        "+ "@ + name + " picked "@ + lower_of(step.map->0) + "\n"@
    }
}

/// The narration of the first `k` steps, one line per step whose map has
/// been recorded and is not empty.
pub open spec fn veto_lines(
    order: Seq<StepModel>,
    k: int,
    team_one: int,
    team_one_name: Seq<char>,
    team_two_name: Seq<char>,
) -> Seq<char>
    decreases k,
{
    if k <= 0 {
        Seq::empty()
    } else {
        veto_lines(order, k - 1, team_one, team_one_name, team_two_name) + (
        if order[k - 1].map matches Some(m) && m.len() > 0 {
            veto_line(order[k - 1], team_one, team_one_name, team_two_name)
        } else {
            Seq::empty()
        })
    }
}

/// The whole veto narration, wrapped in a diff code block.
pub open spec fn veto_info_text(
    order: Seq<StepModel>,
    team_one: int,
    team_one_name: Seq<char>,
    team_two_name: Seq<char>,
) -> Seq<char> {
    "```diff\n"@ + veto_lines(order, order.len() as int, team_one, team_one_name, team_two_name)
        + "\n```"@
}

/// Renders the veto narration of the steps recorded so far.
pub fn veto_info_string(
    order: &Vec<SetupStep>,
    team_one: i64,
    team_one_name: &String,
    team_two_name: &String,
) -> (r: String)
    ensures
        r@ == veto_info_text(order.deep_view(), team_one as int, team_one_name@, team_two_name@),
{
    let ghost model = order.deep_view();
    let mut acc = String::from_str("```diff\n");
    let mut k: usize = 0;
    while k < order.len()
        invariant
            0 <= k <= order.len(),
            model == order.deep_view(),
            acc@ == "```diff\n"@ + veto_lines(
                model,
                k as int,
                team_one as int,
                team_one_name@,
                team_two_name@,
            ),
        decreases order.len() - k,
    {
        let step = &order[k];
        match &step.map {
            Some(m) if !m.as_str().is_empty() => {
                let name = if step.team_role_id == team_one {
                    team_one_name
                } else {
                    team_two_name
                };
                match step.step_type {
                    StepType::Veto => {
                        acc.append("- ");
                        acc.append(name.as_str());
                        acc.append(" banned ");
                    },
                    StepType::Pick => {
                        acc.append("+ ");
                        acc.append(name.as_str());
                        acc.append(" picked ");
                    },
                }
                acc.append(lowercase(m.as_str()).as_str());
                acc.append("\n");
            },
            _ => {},
        }
        k = k + 1;
        proof {
            assert(acc@ =~= "```diff\n"@ + veto_lines(
                model,
                k as int,
                team_one as int,
                team_one_name@,
                team_two_name@,
            ));
        }
    }
    acc.append("\n```");
    proof {
        assert(acc@ =~= veto_info_text(model, team_one as int, team_one_name@, team_two_name@));
    }
    acc
}


/// The step data of a persisted setup step, as the narration reads it.
pub open spec fn step_rows(steps: Seq<MatchSetupStep>) -> Seq<StepModel> {
    steps.map_values(|m: MatchSetupStep| crate::models::step_data(m))
}

/// Narrates the veto of a persisted match: one line per recorded step, in a
/// diff code block, the acting team named by comparing its role against the
/// match's first team. An empty step list has no narration and is reported
/// instead.
pub fn print_veto_info(setup_info: &Vec<MatchSetupStep>, match_: &Match) -> (r: Result<
    String,
    String,
>)
    ensures
        setup_info@.len() == 0 ==> (r matches Err(e) && e@
            == "_This match has no veto info yet_"@),
        setup_info@.len() > 0 ==> (r matches Ok(t) && t@ == veto_info_text(
            step_rows(setup_info@),
            match_@.team_one_role_id,
            match_@.team_one_name,
            match_@.team_two_name,
        )),
{
    if setup_info.len() == 0 {
        return Err(String::from_str("_This match has no veto info yet_"));
    }
    let mut order: Vec<SetupStep> = Vec::new();
    let mut k: usize = 0;
    while k < setup_info.len()
        invariant
            0 <= k <= setup_info.len(),
            order@.len() == k as int,
            order.deep_view() == step_rows(setup_info@).take(k as int),
        decreases setup_info.len() - k,
    {
        let row = &setup_info[k];
        order.push(
            SetupStep {
                match_id: row.match_id,
                step_type: row.step_type,
                team_role_id: row.team_role_id,
                map: match &row.map {
                    Some(m) => Some(m.clone()),
                    None => None,
                },
            },
        );
        k = k + 1;
        proof {
            assert(step_rows(setup_info@).len() == setup_info@.len());
            assert(order.deep_view() =~= step_rows(setup_info@).take(k as int));
        }
    }
    proof {
        assert(order.deep_view() =~= step_rows(setup_info@));
    }
    Ok(
        veto_info_string(
            &order,
            match_.team_one_role_id,
            &match_.team_one_name,
            &match_.team_two_name,
        ),
    )
}

/// One line describing a match: the team names, then the scheduled time,
/// the note, and the match id where present and asked for.
pub open spec fn match_info_text(m: MatchModel, show_id: bool) -> Seq<char> {
    "- "@ + m.team_one_name + " vs "@ + m.team_two_name + (match m.scheduled_time_str {
        Some(t) => " > Scheduled: `"@ + t + "`"@,
        None => Seq::<char>::empty(),
    }) + (match m.note {
        Some(n) => " `"@ + n + "`"@,
        None => Seq::<char>::empty(),
    }) + (if show_id && m.id is Some {
        "    _Match ID:_ `"@ + dec_int(m.id->0) + "\n`"@
    } else {
        Seq::<char>::empty()
    })
}

/// Renders the one-line description of a match.
pub fn print_match_info(match_: &Match, show_id: bool) -> (r: String)
    ensures
        r@ == match_info_text(match_@, show_id),
{
    let mut s = String::from_str("- ");
    s.append(match_.team_one_name.as_str());
    s.append(" vs ");
    s.append(match_.team_two_name.as_str());
    match &match_.scheduled_time_str {
        Some(t) => {
            s.append(" > Scheduled: `");
            s.append(t.as_str());
            s.append("`");
        },
        None => {},
    }
    match &match_.note {
        Some(n) => {
            s.append(" `");
            s.append(n.as_str());
            s.append("`");
        },
        None => {},
    }
    if show_id {
        match match_.id {
            Some(id) => {
                s.append("    _Match ID:_ `");
                s.append(i64_string(id as i64).as_str());
                s.append("\n`");
            },
            None => {},
        }
    }
    proof {
        assert(s@ =~= match_info_text(match_@, show_id));
    }
    s
}

/// The end-of-setup line of one resolved map: its number and lower-cased
/// name, who picked it, and who starts on each side.
pub open spec fn eos_map_line(m: MapSlotModel, idx: int) -> Seq<char> {
    "**"@ + dec_nat((idx + 1) as nat) + ". "@ + lower_of(m.map) + "** - picked by: "@ + mention(
        m.picked_by,
    ) + "\n    _CT start:_ "@ + mention(m.start_defense->0) + "\n    _T start:_ "@ + mention(
        m.start_attack->0,
    ) + "\n"@
}

/// The end-of-setup lines of the first `k` resolved maps, each preceded by
/// a blank line.
pub open spec fn eos_lines(maps: Seq<MapSlotModel>, k: int) -> Seq<char>
    decreases k,
{
    if k <= 0 {
        Seq::empty()
    } else {
        eos_lines(maps, k - 1) + "\n"@ + eos_map_line(maps[k - 1], k - 1)
    }
}

/// The whole end-of-setup message of a session.
pub open spec fn eos_text(s: SessionModel) -> Seq<char> {
    "\n\nSetup is completed. GLHF!\n"@ + eos_lines(s.maps, s.maps.len() as int)
}

/// Renders the end-of-setup message: the completed greeting, then one block
/// per resolved map with its picker and the side each team starts on. Every
/// resolved map must have its sides assigned.
#[verifier::rlimit(60)]
pub fn eos_printout(setup: &Setup) -> (r: String)
    requires
        forall|j: int| 0 <= j < setup@.maps.len() ==> (#[trigger] setup@.maps[j]).start_attack
            is Some && setup@.maps[j].start_defense is Some,
    ensures
        r@ == eos_text(setup@),
{
    let mut s = String::from_str("\n\nSetup is completed. GLHF!\n");
    let mut k: usize = 0;
    while k < setup.maps.len()
        invariant
            0 <= k <= setup.maps.len(),
            forall|j: int| 0 <= j < setup@.maps.len() ==> (#[trigger] setup@.maps[j]).start_attack
                is Some && setup@.maps[j].start_defense is Some,
            s@ == "\n\nSetup is completed. GLHF!\n"@ + eos_lines(setup@.maps, k as int),
        decreases setup.maps.len() - k,
    {
        let m = &setup.maps[k];
        proof {
            assert(setup@.maps[k as int].start_attack is Some && setup@.maps[k as int].start_defense
                is Some);
        }
        s.append("\n");
        s.append("**");
        s.append(u64_string((k as u64) + 1).as_str());
        s.append(". ");
        s.append(lowercase(m.map.as_str()).as_str());
        s.append("** - picked by: ");
        s.append(mention_string(m.picked_by).as_str());
        s.append("\n    _CT start:_ ");
        s.append(mention_string(m.start_defense_team_role_id.unwrap()).as_str());
        s.append("\n    _T start:_ ");
        s.append(mention_string(m.start_attack_team_role_id.unwrap()).as_str());
        s.append("\n");
        k = k + 1;
        proof {
            assert(s@ =~= "\n\nSetup is completed. GLHF!\n"@ + eos_lines(setup@.maps, k as int));
        }
    }
    proof {
        assert(s@ =~= eos_text(setup@));
    }
    s
}

} // verus!
