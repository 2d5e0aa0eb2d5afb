use csgo_matchbot::planner::{handle_bo1_setup, handle_bo3_setup, handle_bo5_setup, veto_begin_string};
use csgo_matchbot::session::{Setup, SetupStep};
use csgo_matchbot::types::{SeriesType, State, StepType};

fn base_setup(series_type: SeriesType) -> Setup {
    Setup {
        team_one: Some(100),
        team_two: Some(200),
        team_one_name: String::from("Alpha"),
        team_two_name: String::from("Bravo"),
        team_one_conn_str: None,
        team_two_conn_str: None,
        maps_remaining: Vec::new(),
        maps: Vec::new(),
        vetoes: Vec::new(),
        series_type,
        match_id: Some(1),
        veto_pick_order: Vec::new(),
        current_step: 0,
        current_phase: State::ServerPick,
        server_id: None,
    }
}

fn step_pattern(steps: &[SetupStep]) -> Vec<(StepType, i64)> {
    steps.iter().map(|s| (s.step_type, s.team_role_id)).collect()
}

#[test]
fn bo1_plan_alternates_bans_from_team_two() {
    let setup = base_setup(SeriesType::Bo1);
    let (order, message) = handle_bo1_setup(&setup);
    assert_eq!(
        step_pattern(&order),
        vec![
            (StepType::Veto, 200),
            (StepType::Veto, 100),
            (StepType::Veto, 200),
            (StepType::Veto, 100),
            (StepType::Veto, 200),
            (StepType::Pick, 100),
        ]
    );
    assert!(order.iter().all(|s| s.map.is_none() && s.match_id == 1));
    assert_eq!(
        message,
        "Best of 1 option selected. Starting map veto. <@&200> bans first.\n"
    );
}

#[test]
fn bo3_plan_interleaves_picks() {
    let setup = base_setup(SeriesType::Bo3);
    let (order, message) = handle_bo3_setup(&setup);
    assert_eq!(
        step_pattern(&order),
        vec![
            (StepType::Veto, 100),
            (StepType::Veto, 200),
            (StepType::Pick, 100),
            (StepType::Pick, 200),
            (StepType::Veto, 200),
            (StepType::Pick, 100),
        ]
    );
    assert_eq!(
        message,
        "Best of 3 option selected. Starting map veto. <@&100> bans first.\n"
    );
}

#[test]
fn bo5_plan_has_seven_steps_five_picks() {
    let setup = base_setup(SeriesType::Bo5);
    let (order, message) = handle_bo5_setup(&setup);
    assert_eq!(
        step_pattern(&order),
        vec![
            (StepType::Veto, 100),
            (StepType::Veto, 200),
            (StepType::Pick, 100),
            (StepType::Pick, 200),
            (StepType::Pick, 100),
            (StepType::Pick, 200),
            (StepType::Pick, 100),
        ]
    );
    assert_eq!(order.len(), 7);
    assert_eq!(
        order.iter().filter(|s| s.step_type == StepType::Pick).count(),
        5
    );
    assert_eq!(
        message,
        "Best of 5 option selected. Starting map veto. <@&100> bans first.\n"
    );
}

#[test]
fn veto_begin_message_names_first_banner() {
    assert_eq!(
        veto_begin_string(SeriesType::Bo1, 7, 9),
        "Best of 1 option selected. Starting map veto. <@&9> bans first.\n"
    );
    assert_eq!(
        veto_begin_string(SeriesType::Bo5, 7, 9),
        "Best of 5 option selected. Starting map veto. <@&7> bans first.\n"
    );
}
