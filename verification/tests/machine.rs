use csgo_matchbot::machine::{new_setup, process_action, Prompt};
use csgo_matchbot::models::Match;
use csgo_matchbot::session::Setup;
use csgo_matchbot::types::{MatchState, SeriesType, State};
use csgo_matchbot::validator::{authorize, resolve_party, Rejection};

fn match_row(series_type: SeriesType) -> Match {
    Match {
        id: Some(1),
        team_one_role_id: 100,
        team_one_name: String::from("Alpha"),
        team_two_role_id: 200,
        team_two_name: String::from("Bravo"),
        note: None,
        date_added: 0,
        match_state: MatchState::Entered,
        scheduled_time_str: None,
        series_type,
    }
}

fn standard_pool() -> Vec<String> {
    vec![
        String::from("dust2"),
        String::from("mirage"),
        String::from("inferno"),
        String::from("nuke"),
        String::from("overpass"),
        String::from("vertigo"),
    ]
}

fn snapshot(setup: &Setup) -> (State, usize, Vec<String>, usize, usize, Option<String>) {
    (
        setup.current_phase,
        setup.current_step,
        setup.maps_remaining.clone(),
        setup.maps.len(),
        setup.veto_pick_order.iter().filter(|s| s.map.is_some()).count(),
        setup.server_id.clone(),
    )
}

#[test]
fn fresh_session_starts_in_server_pick() {
    let setup = new_setup(&match_row(SeriesType::Bo1), standard_pool());
    assert_eq!(setup.current_phase, State::ServerPick);
    assert_eq!(setup.current_step, 0);
    assert_eq!(setup.maps_remaining.len(), 6);
    assert_eq!(setup.veto_pick_order.len(), 6);
    assert!(setup.maps.is_empty());
    assert!(setup.server_id.is_none());
}

#[test]
fn outsider_never_mutates_any_phase() {
    let mut setup = new_setup(&match_row(SeriesType::Bo1), standard_pool());
    // Server-pick phase.
    let before = snapshot(&setup);
    assert!(matches!(
        process_action(&mut setup, 300, "eu1"),
        Err(Rejection::NotParticipant)
    ));
    assert_eq!(snapshot(&setup), before);
    // Map-veto phase.
    process_action(&mut setup, 200, "eu1").unwrap();
    let before = snapshot(&setup);
    assert!(matches!(
        process_action(&mut setup, 300, "dust2"),
        Err(Rejection::NotParticipant)
    ));
    assert_eq!(snapshot(&setup), before);
    // Side-pick phase.
    for (party, map) in [
        (200i64, "dust2"),
        (100, "inferno"),
        (200, "nuke"),
        (100, "overpass"),
        (200, "vertigo"),
    ] {
        process_action(&mut setup, party, map).unwrap();
    }
    assert_eq!(setup.current_phase, State::SidePick);
    let before = snapshot(&setup);
    assert!(matches!(
        process_action(&mut setup, 300, "ct"),
        Err(Rejection::NotParticipant)
    ));
    assert_eq!(snapshot(&setup), before);
}

#[test]
fn wrong_turn_rejected_then_holder_advances_one_step() {
    let mut setup = new_setup(&match_row(SeriesType::Bo1), standard_pool());
    process_action(&mut setup, 200, "eu1").unwrap();
    assert_eq!(setup.current_phase, State::MapVeto);
    assert_eq!(setup.current_step, 0);
    // Team one acts while it is team two's turn to ban first.
    let before = snapshot(&setup);
    assert!(matches!(
        process_action(&mut setup, 100, "dust2"),
        Err(Rejection::WrongTurn)
    ));
    assert_eq!(snapshot(&setup), before);
    // The holder then succeeds and moves exactly one cursor position.
    process_action(&mut setup, 200, "dust2").unwrap();
    assert_eq!(setup.current_phase, State::MapVeto);
    assert_eq!(setup.current_step, 1);
    assert_eq!(setup.maps_remaining.len(), 5);
}

#[test]
fn pool_shrinks_by_one_per_veto_step() {
    let mut setup = new_setup(&match_row(SeriesType::Bo1), standard_pool());
    process_action(&mut setup, 200, "eu1").unwrap();
    assert_eq!(setup.maps_remaining.len(), 6);
    let actions = [
        (200i64, "dust2"),
        (100, "inferno"),
        (200, "nuke"),
        (100, "overpass"),
    ];
    for (done, (party, map)) in actions.iter().enumerate() {
        process_action(&mut setup, *party, map).unwrap();
        assert_eq!(setup.maps_remaining.len(), 6 - done - 1);
    }
}

#[test]
fn single_game_end_to_end_leaves_one_decider() {
    let mut setup = new_setup(&match_row(SeriesType::Bo1), standard_pool());
    let prompt = process_action(&mut setup, 200, "eu-frankfurt").unwrap();
    assert_eq!(setup.server_id.as_deref(), Some("eu-frankfurt"));
    match prompt {
        Prompt::Veto { text, maps, step_type } => {
            assert_eq!(
                text,
                "Best of 1 option selected. Starting map veto. <@&200> bans first.\n"
            );
            assert_eq!(maps, standard_pool());
            assert_eq!(step_type, csgo_matchbot::types::StepType::Veto);
        }
        _ => panic!("expected a veto prompt"),
    }
    // Bans alternate B, A, B, A, B; every map but mirage is banned.
    let first_ban = process_action(&mut setup, 200, "dust2").unwrap();
    match first_ban {
        Prompt::Veto { text, maps, .. } => {
            assert_eq!(
                text,
                "```diff\n- Bravo banned dust2\n\n```\nIt is <@&100> turn to ban"
            );
            assert_eq!(maps.len(), 5);
            assert!(!maps.contains(&String::from("dust2")));
        }
        _ => panic!("expected a veto prompt"),
    }
    process_action(&mut setup, 100, "inferno").unwrap();
    process_action(&mut setup, 200, "nuke").unwrap();
    process_action(&mut setup, 100, "overpass").unwrap();
    let prompt = process_action(&mut setup, 200, "vertigo").unwrap();
    // The remaining map is the decider, attributed to team one, with no
    // further explicit pick prompt.
    match prompt {
        Prompt::Side { text } => {
            assert_eq!(
                text,
                "Map veto completed.\nIt is <@&200> turn to pick starting side for `mirage`"
            );
        }
        _ => panic!("expected a side prompt"),
    }
    assert_eq!(setup.current_phase, State::SidePick);
    assert_eq!(setup.maps.len(), 1);
    assert_eq!(setup.maps[0].map, "mirage");
    assert_eq!(setup.maps[0].picked_by, 100);
    assert!(setup.maps_remaining.is_empty());
    // Team two, which did not pick, chooses counter-terrorist.
    let prompt = process_action(&mut setup, 200, "ct").unwrap();
    assert!(matches!(prompt, Prompt::Done));
    assert_eq!(setup.current_phase, State::Completed);
    assert_eq!(setup.maps.len(), 1);
    assert_eq!(setup.maps[0].start_defense_team_role_id, Some(200));
    assert_eq!(setup.maps[0].start_attack_team_role_id, Some(100));
}

#[test]
fn best_of_three_auto_assigns_third_map() {
    let mut setup = new_setup(&match_row(SeriesType::Bo3), standard_pool());
    process_action(&mut setup, 200, "eu1").unwrap();
    process_action(&mut setup, 100, "dust2").unwrap();
    process_action(&mut setup, 200, "mirage").unwrap();
    process_action(&mut setup, 100, "inferno").unwrap();
    process_action(&mut setup, 200, "nuke").unwrap();
    // After five veto or pick steps exactly one map remains; it becomes the
    // decider without a further explicit pick prompt.
    let prompt = process_action(&mut setup, 200, "overpass").unwrap();
    assert!(matches!(prompt, Prompt::Side { .. }));
    assert_eq!(setup.current_phase, State::SidePick);
    assert_eq!(setup.maps.len(), 3);
    assert_eq!(setup.maps[0].map, "inferno");
    assert_eq!(setup.maps[0].picked_by, 100);
    assert_eq!(setup.maps[1].map, "nuke");
    assert_eq!(setup.maps[1].picked_by, 200);
    assert_eq!(setup.maps[2].map, "vertigo");
    assert_eq!(setup.maps[2].picked_by, 100);
    assert!(setup.maps_remaining.is_empty());
    assert!(setup.veto_pick_order.iter().all(|s| s.map.is_some()));
}

#[test]
fn best_of_three_side_picks_are_consistent() {
    let mut setup = new_setup(&match_row(SeriesType::Bo3), standard_pool());
    process_action(&mut setup, 200, "eu1").unwrap();
    for (party, map) in [
        (100i64, "dust2"),
        (200, "mirage"),
        (100, "inferno"),
        (200, "nuke"),
        (200, "overpass"),
    ] {
        process_action(&mut setup, party, map).unwrap();
    }
    // inferno was picked by team one, so team two chooses its side.
    let prompt = process_action(&mut setup, 200, "ct").unwrap();
    match prompt {
        Prompt::Side { text } => {
            assert_eq!(text, "It is <@&100> turn to pick starting side on nuke");
        }
        _ => panic!("expected a side prompt"),
    }
    process_action(&mut setup, 100, "t").unwrap();
    let done = process_action(&mut setup, 200, "ct").unwrap();
    assert!(matches!(done, Prompt::Done));
    assert_eq!(setup.current_phase, State::Completed);
    for map in &setup.maps {
        let attack = map.start_attack_team_role_id.unwrap();
        let defense = map.start_defense_team_role_id.unwrap();
        assert_ne!(attack, defense);
        let mut pair = [attack, defense];
        pair.sort();
        assert_eq!(pair, [100, 200]);
    }
    assert_eq!(setup.maps[0].start_defense_team_role_id, Some(200));
    assert_eq!(setup.maps[1].start_attack_team_role_id, Some(100));
    assert_eq!(setup.maps[1].start_defense_team_role_id, Some(200));
}

#[test]
fn best_of_five_resolves_five_maps() {
    let mut setup = new_setup(
        &match_row(SeriesType::Bo5),
        vec![
            String::from("dust2"),
            String::from("mirage"),
            String::from("inferno"),
            String::from("nuke"),
            String::from("overpass"),
            String::from("vertigo"),
            String::from("ancient"),
        ],
    );
    process_action(&mut setup, 200, "eu1").unwrap();
    for (party, map) in [
        (100i64, "dust2"),
        (200, "mirage"),
        (100, "inferno"),
        (200, "nuke"),
        (100, "overpass"),
    ] {
        process_action(&mut setup, party, map).unwrap();
    }
    let prompt = process_action(&mut setup, 200, "vertigo").unwrap();
    assert!(matches!(prompt, Prompt::Side { .. }));
    assert_eq!(setup.maps.len(), 5);
    assert_eq!(setup.maps[4].map, "ancient");
    assert_eq!(setup.maps[4].picked_by, 100);
}

#[test]
fn completed_session_accepts_no_action() {
    let mut setup = new_setup(&match_row(SeriesType::Bo1), standard_pool());
    process_action(&mut setup, 200, "eu1").unwrap();
    for (party, map) in [
        (200i64, "dust2"),
        (100, "inferno"),
        (200, "nuke"),
        (100, "overpass"),
        (200, "vertigo"),
    ] {
        process_action(&mut setup, party, map).unwrap();
    }
    process_action(&mut setup, 200, "ct").unwrap();
    assert_eq!(setup.current_phase, State::Completed);
    let before = snapshot(&setup);
    assert!(matches!(
        process_action(&mut setup, 100, "ct"),
        Err(Rejection::WrongTurn)
    ));
    assert!(matches!(
        process_action(&mut setup, 200, "ct"),
        Err(Rejection::WrongTurn)
    ));
    assert_eq!(snapshot(&setup), before);
}

#[test]
fn resolve_party_prefers_team_one_and_rejects_outsiders() {
    let setup = new_setup(&match_row(SeriesType::Bo1), standard_pool());
    assert_eq!(resolve_party(&setup, true, false), Ok(100));
    assert_eq!(resolve_party(&setup, true, true), Ok(100));
    assert_eq!(resolve_party(&setup, false, true), Ok(200));
    assert_eq!(
        resolve_party(&setup, false, false),
        Err(Rejection::NotParticipant)
    );
}

#[test]
fn authorize_follows_the_turn() {
    let mut setup = new_setup(&match_row(SeriesType::Bo1), standard_pool());
    assert_eq!(authorize(&setup, 200), Ok(()));
    assert_eq!(authorize(&setup, 100), Err(Rejection::WrongTurn));
    assert_eq!(authorize(&setup, 42), Err(Rejection::NotParticipant));
    process_action(&mut setup, 200, "eu1").unwrap();
    assert_eq!(authorize(&setup, 200), Ok(()));
    assert_eq!(authorize(&setup, 100), Err(Rejection::WrongTurn));
}
