use csgo_matchbot::machine::{new_setup, process_action};
use csgo_matchbot::models::Match;
use csgo_matchbot::provision::{
    connect_commands, connect_link, duplicate_server_url, server_address, server_name,
    start_match_params, start_series_match_params, tiny_url_request, update_server_params,
    update_server_url,
};
use csgo_matchbot::types::{MatchState, SeriesType, State};

fn pairs(v: &[(String, String)]) -> Vec<(&str, &str)> {
    v.iter().map(|(k, val)| (k.as_str(), val.as_str())).collect()
}

fn completed_setup(series_type: SeriesType) -> csgo_matchbot::session::Setup {
    let row = Match {
        id: Some(7),
        team_one_role_id: 100,
        team_one_name: String::from("Alpha"),
        team_two_role_id: 200,
        team_two_name: String::from("Bravo"),
        note: None,
        date_added: 0,
        match_state: MatchState::Entered,
        scheduled_time_str: None,
        series_type,
    };
    let mut setup = new_setup(
        &row,
        vec![
            String::from("dust2"),
            String::from("mirage"),
            String::from("inferno"),
            String::from("nuke"),
            String::from("overpass"),
            String::from("vertigo"),
        ],
    );
    process_action(&mut setup, 200, "eu1").unwrap();
    match series_type {
        SeriesType::Bo1 => {
            for (party, map) in [
                (200i64, "dust2"),
                (100, "inferno"),
                (200, "nuke"),
                (100, "overpass"),
                (200, "vertigo"),
            ] {
                process_action(&mut setup, party, map).unwrap();
            }
            process_action(&mut setup, 200, "ct").unwrap();
        }
        _ => {
            for (party, map) in [
                (100i64, "dust2"),
                (200, "mirage"),
                (100, "inferno"),
                (200, "nuke"),
                (200, "overpass"),
            ] {
                process_action(&mut setup, party, map).unwrap();
            }
            process_action(&mut setup, 200, "ct").unwrap();
            process_action(&mut setup, 100, "t").unwrap();
            process_action(&mut setup, 200, "ct").unwrap();
        }
    }
    assert_eq!(setup.current_phase, State::Completed);
    setup.team_one_conn_str = Some(String::from("STEAM_0:1:1,STEAM_0:0:2"));
    setup.team_two_conn_str = Some(String::from("STEAM_0:1:3,STEAM_0:0:4"));
    setup
}

#[test]
fn provider_urls_percent_encode_the_server_id() {
    assert_eq!(
        duplicate_server_url("abc 123"),
        "https://dathost.net/api/0.1/game-servers/abc%20123/duplicate"
    );
    assert_eq!(
        update_server_url("plain-id"),
        "https://dathost.net/api/0.1/game-servers/plain-id"
    );
    assert_eq!(
        tiny_url_request("steam://connect/1.2.3.4:27015"),
        "https://tinyurl.com/api-create.php?url=steam%3A%2F%2Fconnect%2F1.2.3.4%3A27015"
    );
}

#[test]
fn update_form_names_server_and_token() {
    let params = update_server_params("match-server-7", "SECRET-REDACTED");
    assert_eq!(
        pairs(&params),
        vec![
            ("name", "match-server-7"),
            ("csgo_settings.steam_game_server_login_token", "SECRET-REDACTED"),
        ]
    );
    assert_eq!(server_name(7), "match-server-7");
}

#[test]
fn single_match_form_puts_defense_on_ct() {
    let setup = completed_setup(SeriesType::Bo1);
    // mirage was decided for team one; team two chose CT, so team two is
    // the counter-terrorist (team2) side and team one the terrorist side.
    assert_eq!(setup.maps[0].start_defense_team_role_id, Some(200));
    let params = start_match_params("srv9", &setup);
    assert_eq!(
        pairs(&params),
        vec![
            ("game_server_id", "srv9"),
            ("map", "mirage"),
            ("team1_name", "Alpha"),
            ("team2_name", "Bravo"),
            ("team1_steam_ids", "STEAM_0:1:1,STEAM_0:0:2"),
            ("team2_steam_ids", "STEAM_0:1:3,STEAM_0:0:4"),
            ("enable_pause", "true"),
            ("enable_tech_pause", "true"),
        ]
    );
}

#[test]
fn series_form_lists_three_maps_and_sides() {
    let setup = completed_setup(SeriesType::Bo3);
    let params = start_series_match_params("srv9", &setup);
    assert_eq!(
        pairs(&params),
        vec![
            ("game_server_id", "srv9"),
            ("enable_pause", "true"),
            ("enable_tech_pause", "true"),
            ("team1_name", "Alpha"),
            ("team2_name", "Bravo"),
            ("team1_steam_ids", "STEAM_0:1:1,STEAM_0:0:2"),
            ("team2_steam_ids", "STEAM_0:1:3,STEAM_0:0:4"),
            ("number_of_maps", "3"),
            ("map1", "inferno"),
            ("map1_start_ct", "team2"),
            ("map2", "nuke"),
            ("map2_start_ct", "team2"),
            ("map3", "vertigo"),
            ("map3_start_ct", "team2"),
        ]
    );
}

#[test]
fn connect_texts_are_exact() {
    assert_eq!(server_address("203.0.113.9", 27015), "203.0.113.9:27015");
    assert_eq!(
        connect_link("203.0.113.9:27015"),
        "steam://connect/203.0.113.9:27015"
    );
    assert_eq!(
        connect_commands("203.0.113.9:27015", "203.0.113.9:27020"),
        "Console: ||`connect 203.0.113.9:27015`||\nGOTV: ||`connect 203.0.113.9:27020`||"
    );
}
