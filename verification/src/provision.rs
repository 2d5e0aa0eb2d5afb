//! Server provisioning payloads: the addresses and form parameters of the
//! hosting provider's calls, and the connect texts shown once a server runs.

use vstd::prelude::*;

use crate::session::{SessionModel, Setup};
use crate::text::{dec_nat, u64_string};
use crate::types::SeriesType;

verus! {

/// The percent-encoding of a character sequence, as `urlencoding::encode`
/// computes it.
pub uninterp spec fn url_encoded(s: Seq<char>) -> Seq<char>;

/// Relies on `urlencoding::encode`: percent-encodes every byte except
/// alphanumerics and `-`, `_`, `.`, `~`; the result is a function of the
/// input characters alone, and an empty string stays empty.
#[verifier::external_body]
pub(crate) fn url_encode(s: &str) -> (r: String)
    ensures
        r@ == url_encoded(s@),
        s@.len() == 0 ==> r@.len() == 0,
{
    urlencoding::encode(s).into_owned()
}

/// The address that duplicates a hosting server.
pub open spec fn duplicate_server_url_text(server_id: Seq<char>) -> Seq<char> {
    "https://dathost.net/api/0.1/game-servers/"@ + url_encoded(server_id) + "/duplicate"@
}

/// Renders the address that duplicates a hosting server.
pub fn duplicate_server_url(server_id: &str) -> (r: String)
    ensures
        r@ == duplicate_server_url_text(server_id@),
{
    let mut s = String::from_str("https://dathost.net/api/0.1/game-servers/");
    s.append(url_encode(server_id).as_str());
    s.append("/duplicate");
    proof {
        assert(s@ =~= duplicate_server_url_text(server_id@));
    }
    s
}

/// The address that updates a hosting server's settings.
pub open spec fn update_server_url_text(server_id: Seq<char>) -> Seq<char> {
    "https://dathost.net/api/0.1/game-servers/"@ + url_encoded(server_id)
}

/// Renders the address that updates a hosting server's settings.
pub fn update_server_url(server_id: &str) -> (r: String)
    ensures
        r@ == update_server_url_text(server_id@),
{
    let mut s = String::from_str("https://dathost.net/api/0.1/game-servers/");
    s.append(url_encode(server_id).as_str());
    proof {
        assert(s@ =~= update_server_url_text(server_id@));
    }
    s
}

/// The address that shortens a link.
pub open spec fn tiny_url_request_text(url: Seq<char>) -> Seq<char> {
    "https://tinyurl.com/api-create.php?url="@ + url_encoded(url)
}

/// Renders the address that shortens a link.
pub fn tiny_url_request(url: &str) -> (r: String)
    ensures
        r@ == tiny_url_request_text(url@),
{
    let mut s = String::from_str("https://tinyurl.com/api-create.php?url=");
    s.append(url_encode(url).as_str());
    proof {
        assert(s@ =~= tiny_url_request_text(url@));
    }
    s
}

/// The name a duplicated server is given for a match.
pub open spec fn server_name_text(match_id: int) -> Seq<char> {
    "match-server-"@ + crate::text::dec_int(match_id)
}

/// Renders the name a duplicated server is given for a match.
pub fn server_name(match_id: i32) -> (r: String)
    ensures
        r@ == server_name_text(match_id as int),
{
    let mut s = String::from_str("match-server-");
    s.append(crate::text::i64_string(match_id as i64).as_str());
    proof {
        assert(s@ =~= server_name_text(match_id as int));
    }
    s
}

/// The form that renames a server and hands it a login token.
pub open spec fn update_server_params_model(name: Seq<char>, token: Seq<char>) -> Seq<
    (Seq<char>, Seq<char>),
> {
    seq![
        ("name"@, name),
        ("csgo_settings.steam_game_server_login_token"@, token),
    ]
}

/// Builds the form that renames a server and hands it a login token.
pub fn update_server_params(name: &str, token: &str) -> (r: Vec<(String, String)>)
    ensures
        r.deep_view() == update_server_params_model(name@, token@),
{
    let mut v: Vec<(String, String)> = Vec::new();
    v.push((String::from_str("name"), String::from_str(name)));
    v.push(
        (
            String::from_str("csgo_settings.steam_game_server_login_token"),
            String::from_str(token),
        ),
    );
    proof {
        assert(v.deep_view() =~= update_server_params_model(name@, token@));
    }
    v
}

/// Which side string a team maps to: the first team is `team1`, any other
/// role `team2`.
pub open spec fn which_team(role: Option<int>, team_one: Option<int>) -> Seq<char> {
    if role == team_one {
        "team1"@
    } else {
        "team2"@
    }
}

/// The form that starts a single-map match: the first resolved map, with the
/// teams' connect strings ordered so that the team starting on defense is
/// the counter-terrorist side.
pub open spec fn start_match_params_model(s: SessionModel, server_id: Seq<char>) -> Seq<
    (Seq<char>, Seq<char>),
> {
    let swap = s.maps[0].start_defense != s.team_one;
    let team_ct = if swap {
        s.team_two_conn_str->0
    } else {
        s.team_one_conn_str->0
    };
    let team_ct_name = if swap {
        s.team_two_name
    } else {
        s.team_one_name
    };
    let team_t = if swap {
        s.team_one_conn_str->0
    } else {
        s.team_two_conn_str->0
    };
    let team_t_name = if swap {
        s.team_one_name
    } else {
        s.team_two_name
    };
    seq![
        ("game_server_id"@, server_id),
        ("map"@, s.maps[0].map),
        ("team1_name"@, team_t_name),
        ("team2_name"@, team_ct_name),
        ("team1_steam_ids"@, team_t),
        ("team2_steam_ids"@, team_ct),
        ("enable_pause"@, "true"@),
        ("enable_tech_pause"@, "true"@),
    ]
}

/// Builds the form that starts a single-map match.
pub fn start_match_params(server_id: &str, setup: &Setup) -> (r: Vec<(String, String)>)
    requires
        setup@.maps.len() >= 1,
        setup@.team_one_conn_str is Some,
        setup@.team_two_conn_str is Some,
    ensures
        r.deep_view() == start_match_params_model(setup@, server_id@),
{
    let swap = match (setup.maps[0].start_defense_team_role_id, setup.team_one) {
        (Some(d), Some(one)) => d != one,
        (None, None) => false,
        _ => true,
    };
    let (team_ct, team_ct_name, team_t, team_t_name) = if swap {
        (
            setup.team_two_conn_str.as_ref().unwrap(),
            &setup.team_two_name,
            setup.team_one_conn_str.as_ref().unwrap(),
            &setup.team_one_name,
        )
    } else {
        (
            setup.team_one_conn_str.as_ref().unwrap(),
            &setup.team_one_name,
            setup.team_two_conn_str.as_ref().unwrap(),
            &setup.team_two_name,
        )
    };
    let mut v: Vec<(String, String)> = Vec::new();
    v.push((String::from_str("game_server_id"), String::from_str(server_id)));
    v.push((String::from_str("map"), setup.maps[0].map.clone()));
    v.push((String::from_str("team1_name"), team_t_name.clone()));
    v.push((String::from_str("team2_name"), team_ct_name.clone()));
    v.push((String::from_str("team1_steam_ids"), team_t.clone()));
    v.push((String::from_str("team2_steam_ids"), team_ct.clone()));
    v.push((String::from_str("enable_pause"), String::from_str("true")));
    v.push((String::from_str("enable_tech_pause"), String::from_str("true")));
    proof {
        assert(v.deep_view() =~= start_match_params_model(setup@, server_id@));
    }
    v
}

/// The per-map form entries of a series: the map name and which team starts
/// on defense, for the first `k` resolved maps.
pub open spec fn series_map_params_model(s: SessionModel, k: int) -> Seq<(Seq<char>, Seq<char>)>
    decreases k,
{
    if k <= 0 {
        Seq::empty()
    } else {
        series_map_params_model(s, k - 1) + seq![
            ("map"@ + dec_nat(k as nat), s.maps[k - 1].map),
            (
                "map"@ + dec_nat(k as nat) + "_start_ct"@,
                which_team(s.maps[k - 1].start_defense, s.team_one),
            ),
        ]
    }
}

/// The per-map form entries of the first `k` maps number two entries each.
pub proof fn lemma_series_params_len(s: SessionModel, k: int)
    requires
        k >= 0,
    ensures
        series_map_params_model(s, k).len() == 2 * k,
    decreases k,
{
    if k > 0 {
        lemma_series_params_len(s, k - 1);
    }
}

/// The form that starts a series: the shared settings, the number of maps
/// the format plays, and one map/side pair per resolved map.
pub open spec fn start_series_params_model(s: SessionModel, server_id: Seq<char>) -> Seq<
    (Seq<char>, Seq<char>),
> {
    let count: int = if s.series_type == SeriesType::Bo5 {
        5
    } else {
        3
    };
    seq![
        ("game_server_id"@, server_id),
        ("enable_pause"@, "true"@),
        ("enable_tech_pause"@, "true"@),
        ("team1_name"@, s.team_one_name),
        ("team2_name"@, s.team_two_name),
        ("team1_steam_ids"@, s.team_one_conn_str->0),
        ("team2_steam_ids"@, s.team_two_conn_str->0),
        ("number_of_maps"@, if s.series_type == SeriesType::Bo5 { "5"@ } else { "3"@ }),
    ] + series_map_params_model(s, count)
}

/// Builds the form that starts a series match: three maps, or five for a
/// best of five.
pub fn start_series_match_params(server_id: &str, setup: &Setup) -> (r: Vec<(String, String)>)
    requires
        setup@.series_type == SeriesType::Bo5 ==> setup@.maps.len() >= 5,
        setup@.series_type != SeriesType::Bo5 ==> setup@.maps.len() >= 3,
        setup@.team_one_conn_str is Some,
        setup@.team_two_conn_str is Some,
    ensures
        r.deep_view() == start_series_params_model(setup@, server_id@),
{
    let count: usize = if matches!(setup.series_type, SeriesType::Bo5) {
        5
    } else {
        3
    };
    let mut v: Vec<(String, String)> = Vec::new();
    v.push((String::from_str("game_server_id"), String::from_str(server_id)));
    v.push((String::from_str("enable_pause"), String::from_str("true")));
    v.push((String::from_str("enable_tech_pause"), String::from_str("true")));
    v.push((String::from_str("team1_name"), setup.team_one_name.clone()));
    v.push((String::from_str("team2_name"), setup.team_two_name.clone()));
    v.push(
        (String::from_str("team1_steam_ids"), setup.team_one_conn_str.as_ref().unwrap().clone()),
    );
    v.push(
        (String::from_str("team2_steam_ids"), setup.team_two_conn_str.as_ref().unwrap().clone()),
    );
    v.push(
        (
            String::from_str("number_of_maps"),
            if matches!(setup.series_type, SeriesType::Bo5) {
                String::from_str("5")
            } else {
                String::from_str("3")
            },
        ),
    );
    let ghost head = v.deep_view();
    proof {
        lemma_series_params_len(setup@, count as int);
        assert(head.len() == 8);
        assert(head =~= start_series_params_model(setup@, server_id@).take(8));
        assert(v.deep_view() =~= head + series_map_params_model(setup@, 0));
    }
    let mut k: usize = 0;
    while k < count
        invariant
            0 <= k <= count,
            count == if setup@.series_type == SeriesType::Bo5 {
                5int
            } else {
                3int
            },
            setup@.maps.len() >= count,
            setup@.team_one_conn_str is Some,
            setup@.team_two_conn_str is Some,
            head.len() == 8,
            v@.len() == 8 + 2 * k,
            head == start_series_params_model(setup@, server_id@).take(8),
            v.deep_view() == head + series_map_params_model(setup@, k as int),
        decreases count - k,
    {
        let mut key = String::from_str("map");
        key.append(u64_string((k as u64) + 1).as_str());
        let mut ct_key = String::from_str("map");
        ct_key.append(u64_string((k as u64) + 1).as_str());
        ct_key.append("_start_ct");
        let side = match (setup.maps[k].start_defense_team_role_id, setup.team_one) {
            (Some(d), Some(one)) => if d == one {
                String::from_str("team1")
            } else {
                String::from_str("team2")
            },
            (None, None) => String::from_str("team1"),
            _ => String::from_str("team2"),
        };
        v.push((key, setup.maps[k].map.clone()));
        v.push((ct_key, side));
        k = k + 1;
        proof {
            lemma_series_params_len(setup@, k as int);
            lemma_series_params_len(setup@, k - 1 as int);
            lemma_series_params_len(setup@, count as int);
            let target = head + series_map_params_model(setup@, k as int);
            assert(v.deep_view().len() == target.len());
            assert forall|i: int| 0 <= i < target.len() implies v.deep_view()[i] == target[i] by {
                if i < 8 + 2 * (k - 1) {
                    assert(v.deep_view()[i] == (head + series_map_params_model(
                        setup@,
                        (k - 1) as int,
                    ))[i]);
                } else if i == 8 + 2 * (k - 1) {
                    assert(v.deep_view()[i] == target[target.len() - 2]);
                } else {
                    assert(v.deep_view()[i] == target[target.len() - 1]);
                }
            }
            assert(v.deep_view() =~= target);
        }
    }
    proof {
        lemma_series_params_len(setup@, count as int);
        assert(v.deep_view() =~~= start_series_params_model(setup@, server_id@));
    }
    v
}

/// A server address: the host and a port.
pub open spec fn server_address_text(ip: Seq<char>, port: nat) -> Seq<char> {
    ip + ":"@ + dec_nat(port)
}

/// Renders a server address.
pub fn server_address(ip: &str, port: u64) -> (r: String)
    ensures
        r@ == server_address_text(ip@, port as nat),
{
    let mut s = String::from_str(ip);
    s.append(":");
    s.append(u64_string(port).as_str());
    proof {
        assert(s@ =~= server_address_text(ip@, port as nat));
    }
    s
}

/// The link that connects a game client to an address.
pub open spec fn connect_link_text(addr: Seq<char>) -> Seq<char> {
    "steam://connect/"@ + addr
}

/// Renders the link that connects a game client to an address.
pub fn connect_link(addr: &str) -> (r: String)
    ensures
        r@ == connect_link_text(addr@),
{
    let mut s = String::from_str("steam://connect/");
    s.append(addr);
    proof {
        assert(s@ =~= connect_link_text(addr@));
    }
    s
}

/// The spoilered console commands shown on demand after setup.
pub open spec fn connect_commands_text(game: Seq<char>, gotv: Seq<char>) -> Seq<char> {
    "Console: ||`connect "@ + game + "`||\nGOTV: ||`connect "@ + gotv + "`||"@
}

/// Renders the spoilered console commands.
pub fn connect_commands(game: &str, gotv: &str) -> (r: String)
    ensures
        r@ == connect_commands_text(game@, gotv@),
{
    let mut s = String::from_str("Console: ||`connect ");
    s.append(game);
    s.append("`||\nGOTV: ||`connect ");
    s.append(gotv);
    s.append("`||");
    proof {
        assert(s@ =~= connect_commands_text(game@, gotv@));
    }
    s
}

} // verus!
