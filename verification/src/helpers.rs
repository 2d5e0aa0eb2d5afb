//! The label/value pairs behind the selectable prompts: maps, servers and
//! starting sides. Values are folded to lower case, as the select controls
//! expect them.

use vstd::prelude::*;

use crate::models::MatchServer;
use crate::text::{lower_of, lowercase};
use crate::types::{step_verb, StepType};
use vstd::string::StrSliceExecFns;

verus! {

/// The options of a map select: each remaining map labelled by its name,
/// with the lower-cased name as its value.
pub open spec fn map_options_model(maps: Seq<Seq<char>>) -> Seq<(Seq<char>, Seq<char>)> {
    maps.map_values(|m: Seq<char>| (m, lower_of(m)))
}

/// Builds the options of a map select.
pub fn create_map_options(map_list: &Vec<String>) -> (r: Vec<(String, String)>)
    ensures
        r.deep_view() == map_options_model(map_list.deep_view()),
{
    let mut r: Vec<(String, String)> = Vec::new();
    let mut k: usize = 0;
    while k < map_list.len()
        invariant
            0 <= k <= map_list.len(),
            r@.len() == k as int,
            r.deep_view() == map_options_model(map_list.deep_view()).take(k as int),
        decreases map_list.len() - k,
    {
        r.push((map_list[k].clone(), lowercase(map_list[k].as_str())));
        k = k + 1;
        proof {
            assert(map_options_model(map_list.deep_view()).len() == map_list.deep_view().len());
            assert(r.deep_view() =~= map_options_model(map_list.deep_view()).take(k as int));
        }
    }
    proof {
        assert(r.deep_view() =~= map_options_model(map_list.deep_view()));
    }
    r
}

/// The options of a server select: each server labelled by its region, with
/// the lower-cased server id as its value.
pub open spec fn server_options_model(servers: Seq<MatchServer>) -> Seq<(Seq<char>, Seq<char>)> {
    servers.map_values(|s: MatchServer| (s.region_label@, lower_of(s.server_id@)))
}

/// Builds the options of a server select.
pub fn create_server_options(server_list: &Vec<MatchServer>) -> (r: Vec<(String, String)>)
    ensures
        r.deep_view() == server_options_model(server_list@),
{
    let mut r: Vec<(String, String)> = Vec::new();
    let mut k: usize = 0;
    while k < server_list.len()
        invariant
            0 <= k <= server_list.len(),
            r@.len() == k as int,
            r.deep_view() == server_options_model(server_list@).take(k as int),
        decreases server_list.len() - k,
    {
        r.push(
            (server_list[k].region_label.clone(), lowercase(server_list[k].server_id.as_str())),
        );
        k = k + 1;
        proof {
            assert(server_options_model(server_list@).len() == server_list@.len());
            assert(r.deep_view() =~= server_options_model(server_list@).take(k as int));
        }
    }
    proof {
        assert(r.deep_view() =~= server_options_model(server_list@));
    }
    r
}

/// Builds the options of the starting-side select: counter-terrorist or
/// terrorist.
pub fn create_side_options() -> (r: Vec<(String, String)>)
    ensures
        r.deep_view() == seq![("CT"@, "ct"@), ("T"@, "t"@)],
{
    let mut r: Vec<(String, String)> = Vec::new();
    r.push((String::from_str("CT"), String::from_str("ct")));
    r.push((String::from_str("T"), String::from_str("t")));
    proof {
        assert(r.deep_view() =~= seq![("CT"@, "ct"@), ("T"@, "t"@)]);
    }
    r
}

/// The placeholder of a map select, naming what the coming step does.
pub open spec fn map_placeholder_text(step_type: StepType) -> Seq<char> {
    "Select map to "@ + step_verb(step_type)
}

/// Renders the placeholder of a map select.
pub fn map_select_placeholder(step_type: StepType) -> (r: String)
    ensures
        r@ == map_placeholder_text(step_type),
{
    let mut s = String::from_str("Select map to ");
    s.append(step_type.label());
    proof {
        assert(s@ =~= map_placeholder_text(step_type));
    }
    s
}

/// Whether a name begins with the given prefix, character for character.
pub open spec fn has_prefix_spec(name: Seq<char>, prefix: Seq<char>) -> bool {
    name.len() >= prefix.len() && name.subrange(0, prefix.len() as int) == prefix
}

/// Decides whether a role name begins with a prefix; the team roles are
/// found by their names' common prefix.
pub fn has_prefix(name: &str, prefix: &str) -> (r: bool)
    ensures
        r == has_prefix_spec(name@, prefix@),
{
    let n = name.unicode_len();
    let p = prefix.unicode_len();
    if n < p {
        return false;
    }
    let mut k: usize = 0;
    while k < p
        invariant
            0 <= k <= p,
            p == prefix@.len(),
            n == name@.len(),
            n >= p,
            forall|i: int| 0 <= i < k ==> name@[i] == prefix@[i],
        decreases p - k,
    {
        if name.get_char(k) != prefix.get_char(k) {
            proof {
                assert(name@.subrange(0, p as int)[k as int] != prefix@[k as int]);
            }
            return false;
        }
        k = k + 1;
    }
    proof {
        assert(name@.subrange(0, p as int) =~= prefix@);
    }
    true
}

} // verus!
