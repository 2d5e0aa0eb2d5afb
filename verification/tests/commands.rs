use csgo_matchbot::helpers::{
    create_map_options, create_server_options, create_side_options, has_prefix,
    map_select_placeholder,
};
use csgo_matchbot::models::{list_filter_state, CustomError, MatchServer};
use csgo_matchbot::types::{Command, MatchState, SeriesType, StepType};

#[test]
fn command_names_parse_exactly() {
    assert_eq!(Command::from_str("addmatch"), Ok(Command::AddMatch));
    assert_eq!(Command::from_str("deletematch"), Ok(Command::DeleteMatch));
    assert_eq!(Command::from_str("maps"), Ok(Command::Maps));
    assert_eq!(Command::from_str("match"), Ok(Command::Match));
    assert_eq!(Command::from_str("matches"), Ok(Command::Matches));
    assert_eq!(Command::from_str("schedule"), Ok(Command::Schedule));
    assert_eq!(Command::from_str("setup"), Ok(Command::Setup));
    assert_eq!(Command::from_str("steamid"), Ok(Command::SteamId));
    assert_eq!(Command::from_str("unknown"), Err(()));
    assert_eq!(Command::from_str("Setup"), Err(()));
}

#[test]
fn series_types_parse_exactly() {
    assert_eq!(SeriesType::from_str("bo1"), Ok(SeriesType::Bo1));
    assert_eq!(SeriesType::from_str("bo3"), Ok(SeriesType::Bo3));
    assert_eq!(SeriesType::from_str("bo5"), Ok(SeriesType::Bo5));
    assert_eq!(SeriesType::from_str("bo2"), Err(()));
}

#[test]
fn step_labels_are_the_prompt_verbs() {
    assert_eq!(StepType::Veto.label(), "ban");
    assert_eq!(StepType::Pick.label(), "pick");
    assert_eq!(map_select_placeholder(StepType::Veto), "Select map to ban");
    assert_eq!(map_select_placeholder(StepType::Pick), "Select map to pick");
}

#[test]
fn map_options_fold_values_to_lower_case() {
    let options = create_map_options(&vec![String::from("Dust2"), String::from("MIRAGE")]);
    assert_eq!(
        options,
        vec![
            (String::from("Dust2"), String::from("dust2")),
            (String::from("MIRAGE"), String::from("mirage")),
        ]
    );
}

#[test]
fn server_options_pair_label_with_folded_id() {
    let options = create_server_options(&vec![
        MatchServer {
            region_label: String::from("EU West"),
            server_id: String::from("SRV-Alpha"),
        },
    ]);
    assert_eq!(
        options,
        vec![(String::from("EU West"), String::from("srv-alpha"))]
    );
}

#[test]
fn side_options_offer_ct_and_t() {
    assert_eq!(
        create_side_options(),
        vec![
            (String::from("CT"), String::from("ct")),
            (String::from("T"), String::from("t")),
        ]
    );
}

#[test]
fn team_roles_are_found_by_prefix() {
    assert!(has_prefix("Team Alpha", "Team"));
    assert!(has_prefix("Team Alpha", "Team "));
    assert!(has_prefix("Team", "Team"));
    assert!(!has_prefix("team alpha", "Team"));
    assert!(!has_prefix("Tea", "Team"));
}

#[test]
fn listing_filter_matches_the_flag() {
    assert_eq!(list_filter_state(true), MatchState::Completed);
    assert_eq!(list_filter_state(false), MatchState::Scheduled);
}

#[test]
fn not_found_error_carries_its_message() {
    let err = CustomError::not_found(String::from("missing series type"));
    assert_eq!(err.msg, "missing series type");
    assert_eq!(err.status, 404);
}
