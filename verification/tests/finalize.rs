use csgo_matchbot::finalize::{finalize_records, finish_setup, MatchStore, PersistenceError};
use csgo_matchbot::machine::{new_setup, process_action};
use csgo_matchbot::models::Match;
use csgo_matchbot::types::{MatchState, SeriesType, State, StepType};

fn completed_single_game() -> csgo_matchbot::session::Setup {
    let row = Match {
        id: Some(7),
        team_one_role_id: 100,
        team_one_name: String::from("Alpha"),
        team_two_role_id: 200,
        team_two_name: String::from("Bravo"),
        note: None,
        date_added: 0,
        match_state: MatchState::Entered,
        scheduled_time_str: None,
        series_type: SeriesType::Bo1,
    };
    let mut setup = new_setup(
        &row,
        vec![
            String::from("dust2"),
            String::from("mirage"),
            String::from("inferno"),
            String::from("nuke"),
            String::from("overpass"),
            String::from("vertigo"),
        ],
    );
    process_action(&mut setup, 200, "eu1").unwrap();
    for (party, map) in [
        (200i64, "dust2"),
        (100, "inferno"),
        (200, "nuke"),
        (100, "overpass"),
        (200, "vertigo"),
    ] {
        process_action(&mut setup, party, map).unwrap();
    }
    process_action(&mut setup, 200, "t").unwrap();
    assert_eq!(setup.current_phase, State::Completed);
    setup
}

fn store_with_match() -> MatchStore {
    MatchStore {
        setup_steps: Vec::new(),
        series_maps: Vec::new(),
        matches: vec![
            Match {
                id: Some(7),
                team_one_role_id: 100,
                team_one_name: String::from("Alpha"),
                team_two_role_id: 200,
                team_two_name: String::from("Bravo"),
                note: None,
                date_added: 0,
                match_state: MatchState::Entered,
                scheduled_time_str: None,
                series_type: SeriesType::Bo1,
            },
            Match {
                id: Some(8),
                team_one_role_id: 300,
                team_one_name: String::from("Gamma"),
                team_two_role_id: 400,
                team_two_name: String::from("Delta"),
                note: None,
                date_added: 0,
                match_state: MatchState::Entered,
                scheduled_time_str: None,
                series_type: SeriesType::Bo3,
            },
        ],
    }
}

#[test]
fn records_carry_the_session_match_id() {
    let setup = completed_single_game();
    let (steps, maps) = finalize_records(&setup);
    assert_eq!(steps.len(), 6);
    assert!(steps.iter().all(|s| s.match_id == 7));
    assert_eq!(steps[0].step_type, StepType::Veto);
    assert_eq!(steps[0].team_role_id, 200);
    assert_eq!(steps[0].map.as_deref(), Some("dust2"));
    assert_eq!(steps[5].step_type, StepType::Pick);
    assert_eq!(steps[5].team_role_id, 100);
    assert_eq!(steps[5].map.as_deref(), Some("mirage"));
    assert_eq!(maps.len(), 1);
    assert_eq!(maps[0].match_id, 7);
    assert_eq!(maps[0].map, "mirage");
    assert_eq!(maps[0].picked_by_role_id, 100);
    assert_eq!(maps[0].start_attack_team_role_id, Some(200));
    assert_eq!(maps[0].start_defense_team_role_id, Some(100));
}

#[test]
fn failed_transaction_writes_nothing() {
    let setup = completed_single_game();
    let mut store = store_with_match();
    let result = finish_setup(&mut store, &setup, false);
    assert_eq!(result, Err(PersistenceError));
    assert!(store.setup_steps.is_empty());
    assert!(store.series_maps.is_empty());
    assert_eq!(store.matches[0].match_state, MatchState::Entered);
    assert_eq!(store.matches[1].match_state, MatchState::Entered);
}

#[test]
fn committed_transaction_writes_everything() {
    let setup = completed_single_game();
    let mut store = store_with_match();
    let result = finish_setup(&mut store, &setup, true);
    assert_eq!(result, Ok(()));
    assert_eq!(store.setup_steps.len(), 6);
    assert_eq!(store.series_maps.len(), 1);
    assert_eq!(store.matches[0].match_state, MatchState::Completed);
    // The other match row is untouched.
    assert_eq!(store.matches[1].match_state, MatchState::Entered);
    assert_eq!(store.matches[1].team_one_name, "Gamma");
}
