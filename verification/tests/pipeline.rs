//! End-to-end tests: ingestion routing, the aggregate result, and the
//! batch-level scenarios.

use std::collections::HashMap;

use chess_insights::games_info_generator::generate;
use chess_insights::games_info_processor::TimeAverage;
use chess_insights::lichess_client::{process_games, IngestState};
use chess_insights::service_intermediary::GameFetchWarning;
use chess_insights::unit_test_util::{
    create_mock_game_json, get_some_mocked_game_a, MinimalGameJsonInfoTesting,
};
use chess_insights::deserialization::GameJson;

/// A record long enough (seven half-moves) to stay eligible in
/// production mode; the user plays white and loses.
fn seven_move_game() -> GameJson {
    create_mock_game_json(MinimalGameJsonInfoTesting {
        clocks: Some(vec![18003, 18003, 17509, 16931, 17201, 16000, 15000]),
        moves: Some("e4 c5 Nf3 d6 d4 cxd4 Nxd4".to_string()),
        black_player_name: Some("other_user".to_string()),
        white_player_name: Some("user".to_string()),
        winner: Some("black".to_string()),
    })
}

#[test]
fn test_scenario_midpoint_pair_user_black() {
    // Clock samples [18003, 18003, 17939, 17931, 17899, 17867], six
    // moves, user playing black: the midpoint is 3 (odd), so the pair is
    // (2, 3); the user's move is the black one, so the differential is
    // 17931 - 17939 = -8 centiseconds (0.08 seconds in magnitude).
    let info = generate(&get_some_mocked_game_a(), &0, &"user".to_string());
    let differential =
        chess_insights::games_info_processor::compute_curr_game_time_differential(&info);
    assert_eq!(differential, -8);
    assert_eq!((differential as f32 / 100.0).abs(), 0.08);
}

#[test]
fn test_scenario_trailing_sample_user_white() {
    // Seven clock samples for six moves (the trailing sample is
    // dropped), user playing white: the pair is (2, 3) and the
    // differential is 17509 - 16931 = 578 centiseconds = 5.78 seconds.
    let game_json = chess_insights::unit_test_util::get_some_mocked_game_b();
    let info = generate(&game_json, &0, &"user".to_string());
    let differential =
        chess_insights::games_info_processor::compute_curr_game_time_differential(&info);
    assert_eq!(differential, 578);
    assert_eq!(differential as f32 / 100.0, 5.78);
}

#[test]
fn test_scenario_zero_games() {
    // Zero games supplied: the average is undefined (not zero), the win
    // rate renders as 0.0 under the zero-numerator rule, and the trend
    // series is empty.
    let games = Vec::new();
    let mut skipped_games: HashMap<usize, GameFetchWarning> = HashMap::new();
    let processed = process_games(&games, &mut skipped_games);

    assert!(processed.average_time.is_none());
    assert_eq!(processed.win_rate.n_wins, 0);
    assert_eq!(processed.win_rate.n_games_considered, 0);
    let rendered = if processed.win_rate.n_wins == 0 {
        0.0
    } else {
        processed.win_rate.n_wins as f32 / processed.win_rate.n_games_considered as f32
    };
    assert_eq!(rendered, 0.0);
    assert!(processed.trend_chart_data.is_empty());
    assert!(processed.games_with_errors.is_empty());
}

#[test]
fn test_scenario_internal_error_first_of_two() {
    // Two records, the first of which cannot be processed: only the
    // remaining game contributes to the average, and because it is
    // second in index order its display number is 2.
    let mut state = IngestState::new();
    let first = state.ingest_record(None, &"user".to_string());
    let game = seven_move_game();
    let second = state.ingest_record(Some(&game), &"user".to_string());
    assert_eq!((first, second), (0, 1));

    let processed = process_games(&state.games_info, &mut state.skipped_games);
    assert_eq!(
        processed.average_time,
        Some(TimeAverage {
            total_centiseconds: 578,
            game_count: 1
        })
    );
    assert_eq!(processed.trend_chart_data.len(), 1);
    assert_eq!(processed.trend_chart_data[0].game_number, 2);
    assert_eq!(processed.trend_chart_data[0].time_differential, 578);
    assert_eq!(processed.games_with_errors.len(), 1);
    assert_eq!(
        processed.games_with_errors[0],
        (
            1,
            "An internal error occured while processing this game.".to_string()
        )
    );
}

#[test]
fn test_scenario_internal_error_second_of_two() {
    // The mirror case: the failing record comes second, so the eligible
    // game keeps display number 1.
    let mut state = IngestState::new();
    let game = seven_move_game();
    state.ingest_record(Some(&game), &"user".to_string());
    state.ingest_record(None, &"user".to_string());

    let processed = process_games(&state.games_info, &mut state.skipped_games);
    assert_eq!(
        processed.average_time,
        Some(TimeAverage {
            total_centiseconds: 578,
            game_count: 1
        })
    );
    assert_eq!(processed.trend_chart_data.len(), 1);
    assert_eq!(processed.trend_chart_data[0].game_number, 1);
}

#[test]
fn test_display_numbers_increase_across_skips() {
    // Eligible, failed, eligible, too short: display numbers follow the
    // stream positions (1-based), skipping nothing in the numbering.
    let mut state = IngestState::new();
    let user = "user".to_string();
    let game = seven_move_game();
    state.ingest_record(Some(&game), &user);
    state.ingest_record(None, &user);
    state.ingest_record(Some(&game), &user);
    let short_game = get_some_mocked_game_a();
    state.ingest_record(Some(&short_game), &user);

    let processed = process_games(&state.games_info, &mut state.skipped_games);

    let numbers: Vec<i32> = processed
        .trend_chart_data
        .iter()
        .map(|datum| datum.game_number)
        .collect();
    assert_eq!(numbers, vec![1, 3]);
    assert!(numbers.windows(2).all(|w| w[0] < w[1]));

    // The too-short game was registered during the differential pass.
    assert_eq!(
        state.skipped_games.get(&3),
        Some(&GameFetchWarning::GameHasNotEnoughMoves)
    );
    assert_eq!(
        state.skipped_games.get(&1),
        Some(&GameFetchWarning::InternalErrorOccuredWhileProcessingAGame)
    );
}

#[test]
fn test_pipeline_is_deterministic_on_same_inputs() {
    // Re-running the pipeline on an identical, already-materialized
    // batch and registry yields identical aggregate output.
    let mut state = IngestState::new();
    let user = "user".to_string();
    let game = seven_move_game();
    state.ingest_record(Some(&game), &user);
    state.ingest_record(None, &user);
    let short_game = get_some_mocked_game_a();
    state.ingest_record(Some(&short_game), &user);

    let mut registry_one = state.skipped_games.clone();
    let mut registry_two = state.skipped_games.clone();
    let first = process_games(&state.games_info, &mut registry_one);
    let second = process_games(&state.games_info, &mut registry_two);
    assert_eq!(first, second);
}

#[test]
fn test_ingest_rejects_record_missing_moves() {
    // A record without a move list cannot be normalized: it takes the
    // index and an internal-error warning.
    let record = create_mock_game_json(MinimalGameJsonInfoTesting {
        clocks: Some(vec![100, 90]),
        moves: None,
        black_player_name: Some("user".to_string()),
        white_player_name: Some("other".to_string()),
        winner: None,
    });
    let mut state = IngestState::new();
    state.ingest_record(Some(&record), &"user".to_string());
    assert_eq!(
        state.skipped_games.get(&0),
        Some(&GameFetchWarning::InternalErrorOccuredWhileProcessingAGame)
    );
    assert_eq!(state.games_info.len(), 1);
}

#[test]
fn test_ingest_rejects_short_clock_list() {
    // Four moves but only two clock samples: the lists cannot be
    // aligned, so the record is skipped as an internal error.
    let record = create_mock_game_json(MinimalGameJsonInfoTesting {
        clocks: Some(vec![100, 90]),
        moves: Some("e4 e5 Nf3 Nc6".to_string()),
        black_player_name: Some("user".to_string()),
        white_player_name: Some("other".to_string()),
        winner: None,
    });
    let mut state = IngestState::new();
    state.ingest_record(Some(&record), &"user".to_string());
    assert_eq!(
        state.skipped_games.get(&0),
        Some(&GameFetchWarning::InternalErrorOccuredWhileProcessingAGame)
    );
}

#[test]
fn test_ingest_accepts_good_record() {
    let game = seven_move_game();
    let mut state = IngestState::new();
    let assigned = state.ingest_record(Some(&game), &"user".to_string());
    assert_eq!(assigned, 0);
    assert_eq!(state.games_info.len(), 1);
    assert!(state.skipped_games.is_empty());
    assert_eq!(state.games_info[0].user_color, "white");
    assert_eq!(state.games_info[0].timed_moves.len(), 7);
}
