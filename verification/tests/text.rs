use csgo_matchbot::models::{Match, MatchSetupStep};
use csgo_matchbot::session::{Setup, SetupMap};
use csgo_matchbot::text::{
    eos_printout, i64_string, mention_string, print_match_info, print_veto_info, u64_string,
};
use csgo_matchbot::types::{MatchState, SeriesType, State, StepType};

fn match_row() -> Match {
    Match {
        id: Some(7),
        team_one_role_id: 100,
        team_one_name: String::from("Alpha"),
        team_two_role_id: 200,
        team_two_name: String::from("Bravo"),
        note: None,
        date_added: 0,
        match_state: MatchState::Entered,
        scheduled_time_str: None,
        series_type: SeriesType::Bo1,
    }
}

#[test]
fn decimal_renderings_are_exact() {
    assert_eq!(u64_string(0), "0");
    assert_eq!(u64_string(7), "7");
    assert_eq!(u64_string(10), "10");
    assert_eq!(u64_string(9876543210), "9876543210");
    assert_eq!(u64_string(u64::MAX), "18446744073709551615");
    assert_eq!(i64_string(0), "0");
    assert_eq!(i64_string(-1), "-1");
    assert_eq!(i64_string(-12345), "-12345");
    assert_eq!(i64_string(i64::MIN), "-9223372036854775808");
    assert_eq!(mention_string(826608535636),  "<@&826608535636>");
}

#[test]
fn veto_info_narrates_recorded_steps() {
    let steps = vec![
        MatchSetupStep {
            id: None,
            match_id: 7,
            step_type: StepType::Veto,
            team_role_id: 200,
            map: Some(String::from("Dust2")),
        },
        MatchSetupStep {
            id: None,
            match_id: 7,
            step_type: StepType::Pick,
            team_role_id: 100,
            map: Some(String::from("MIRAGE")),
        },
        MatchSetupStep {
            id: None,
            match_id: 7,
            step_type: StepType::Pick,
            team_role_id: 100,
            map: None,
        },
        MatchSetupStep {
            id: None,
            match_id: 7,
            step_type: StepType::Veto,
            team_role_id: 200,
            map: Some(String::new()),
        },
    ];
    let text = print_veto_info(&steps, &match_row()).unwrap();
    // Unrecorded and empty maps are skipped; names fold to lower case.
    assert_eq!(
        text,
        "```diff\n- Bravo banned dust2\n+ Alpha picked mirage\n\n```"
    );
}

#[test]
fn veto_info_without_steps_is_reported() {
    let result = print_veto_info(&Vec::new(), &match_row());
    assert_eq!(result, Err(String::from("_This match has no veto info yet_")));
}

#[test]
fn match_info_line_shows_what_is_present() {
    let mut row = match_row();
    assert_eq!(print_match_info(&row, false), "- Alpha vs Bravo");
    row.scheduled_time_str = Some(String::from("tomorrow 19:00"));
    row.note = Some(String::from("finals"));
    assert_eq!(
        print_match_info(&row, false),
        "- Alpha vs Bravo > Scheduled: `tomorrow 19:00` `finals`"
    );
    assert_eq!(
        print_match_info(&row, true),
        "- Alpha vs Bravo > Scheduled: `tomorrow 19:00` `finals`    _Match ID:_ `7\n`"
    );
}

#[test]
fn end_of_setup_message_lists_each_map() {
    let setup = Setup {
        team_one: Some(100),
        team_two: Some(200),
        team_one_name: String::from("Alpha"),
        team_two_name: String::from("Bravo"),
        team_one_conn_str: None,
        team_two_conn_str: None,
        maps_remaining: Vec::new(),
        maps: vec![
            SetupMap {
                match_id: 7,
                map: String::from("Mirage"),
                picked_by: 100,
                start_attack_team_role_id: Some(100),
                start_defense_team_role_id: Some(200),
            },
            SetupMap {
                match_id: 7,
                map: String::from("nuke"),
                picked_by: 200,
                start_attack_team_role_id: Some(200),
                start_defense_team_role_id: Some(100),
            },
        ],
        vetoes: Vec::new(),
        series_type: SeriesType::Bo3,
        match_id: Some(7),
        veto_pick_order: Vec::new(),
        current_step: 2,
        current_phase: State::Completed,
        server_id: Some(String::from("eu1")),
    };
    assert_eq!(
        eos_printout(&setup),
        "\n\nSetup is completed. GLHF!\n\
         \n**1. mirage** - picked by: <@&100>\n    _CT start:_ <@&200>\n    _T start:_ <@&100>\n\
         \n**2. nuke** - picked by: <@&200>\n    _CT start:_ <@&100>\n    _T start:_ <@&200>\n"
    );
}
