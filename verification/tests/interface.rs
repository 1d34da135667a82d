//! Tests for the request/response edges: the record-source URL, the
//! displayable warnings, request classification, and the outcome
//! predicates.

use std::collections::HashMap;

use chess_insights::deserialization::convert_games_with_errors_to_displayable_format;
use chess_insights::errors_manager::ProcessError;
use chess_insights::games_info_generator::{GameInfo, TimedMove};
use chess_insights::lichess_client::get_url;
use chess_insights::service_intermediary::{
    ChessDataRequest, DescriptionMessageAssessment, GameFetchWarning, GlobalFetchError,
    RequestSource,
};
use chess_insights::util::{
    generate_dummy_erros_testing, get_game_flagging_information, has_user_won_game,
    is_game_draw,
};

fn request(username: &str, games_count: i32, game_mode: &str, user_color: &str) -> ChessDataRequest {
    ChessDataRequest {
        username: username.to_string(),
        games_count,
        game_mode: game_mode.to_string(),
        user_color: user_color.to_string(),
        user_elo: None,
    }
}

fn game_with(
    user_color: &str,
    winner_color: Option<&str>,
    game_status: &str,
    n_moves: usize,
) -> GameInfo {
    let mut timed_moves = Vec::new();
    for i in 0..n_moves {
        timed_moves.push(TimedMove {
            move_key: "e4".to_string(),
            move_time: 1000 - i as i64,
        });
    }
    GameInfo {
        game_index: 0,
        timed_moves,
        user_color: user_color.to_string(),
        user_rating: 1500,
        opponent_rating: 1600,
        opponent_username: "opponent".to_string(),
        winner_color: winner_color.map(|c| c.to_string()),
        game_status: game_status.to_string(),
    }
}

#[test]
fn test_get_url_with_color_filter() {
    let url = get_url(&request("bob", 25, "blitz", "white"));
    assert_eq!(
        url,
        "https://lichess.org/api/games/user/bob?max=25&perfType=blitz&color=white&rated=true&clocks=true"
    );
}

#[test]
fn test_get_url_omits_color_for_both() {
    let url = get_url(&request("alice", 100, "rapid", "both"));
    assert_eq!(
        url,
        "https://lichess.org/api/games/user/alice?max=100&perfType=rapid&rated=true&clocks=true"
    );
}

#[test]
fn test_get_url_renders_any_count() {
    assert!(get_url(&request("x", 0, "bullet", "both")).contains("?max=0&"));
    assert!(get_url(&request("x", -5, "bullet", "both")).contains("?max=-5&"));
    assert!(get_url(&request("x", 2147483647, "bullet", "both")).contains("?max=2147483647&"));
}

#[test]
fn test_convert_games_with_errors_is_sorted_and_one_based() {
    let mut games_with_errors: HashMap<usize, GameFetchWarning> = HashMap::new();
    games_with_errors.insert(2, GameFetchWarning::InternalErrorOccuredWhileProcessingAGame);
    games_with_errors.insert(0, GameFetchWarning::GameHasNotEnoughMoves);

    let displayable = convert_games_with_errors_to_displayable_format(games_with_errors);
    assert_eq!(
        displayable,
        vec![
            (1, "Game does not have enough moves.".to_string()),
            (
                3,
                "An internal error occured while processing this game.".to_string()
            ),
        ]
    );
}

#[test]
fn test_convert_games_with_errors_empty() {
    let displayable = convert_games_with_errors_to_displayable_format(HashMap::new());
    assert!(displayable.is_empty());
}

#[test]
fn test_request_source_classification() {
    assert_eq!(RequestSource::from_str(Some("internal")), RequestSource::Internal);
    assert_eq!(RequestSource::from_str(Some("frontend")), RequestSource::Frontend);
    assert_eq!(RequestSource::from_str(Some("elsewhere")), RequestSource::Frontend);
    assert_eq!(RequestSource::from_str(None), RequestSource::Frontend);
}

#[test]
fn test_generate_dummy_erros_testing_alternates_and_keeps_existing() {
    let mut skipped_games: HashMap<usize, GameFetchWarning> = HashMap::new();
    skipped_games.insert(1, GameFetchWarning::GameHasNotEnoughMoves);
    generate_dummy_erros_testing(&mut skipped_games);

    assert_eq!(skipped_games.len(), 6);
    assert_eq!(
        skipped_games.get(&0),
        Some(&GameFetchWarning::GameHasNotEnoughMoves)
    );
    // The entry that was already present wins over the alternation.
    assert_eq!(
        skipped_games.get(&1),
        Some(&GameFetchWarning::GameHasNotEnoughMoves)
    );
    assert_eq!(
        skipped_games.get(&3),
        Some(&GameFetchWarning::InternalErrorOccuredWhileProcessingAGame)
    );
    assert_eq!(
        skipped_games.get(&4),
        Some(&GameFetchWarning::GameHasNotEnoughMoves)
    );
}

#[test]
fn test_outcome_predicates() {
    assert!(is_game_draw(&game_with("white", None, "draw", 4)));
    assert!(!is_game_draw(&game_with("white", Some("black"), "mate", 4)));
    assert!(has_user_won_game(&game_with("white", Some("white"), "mate", 4)));
    assert!(!has_user_won_game(&game_with("white", Some("black"), "mate", 4)));
    assert!(!has_user_won_game(&game_with("white", None, "draw", 4)));
}

#[test]
fn test_game_flagging_information() {
    // A draw flags no one.
    assert_eq!(
        get_game_flagging_information(&game_with("white", None, "outoftime", 4)),
        None
    );
    // Decided by the clock: the flag goes to the winner.
    assert_eq!(
        get_game_flagging_information(&game_with("white", Some("white"), "outoftime", 4)),
        Some(true)
    );
    assert_eq!(
        get_game_flagging_information(&game_with("white", Some("black"), "outoftime", 4)),
        Some(false)
    );
    // Decided another way: no flag.
    assert_eq!(
        get_game_flagging_information(&game_with("white", Some("white"), "mate", 4)),
        None
    );
}

#[test]
fn test_process_error_messages() {
    let fetch = ProcessError::FetchError {
        message: "There was a problem fetching the data.".to_string(),
    };
    let data = ProcessError::DataError {
        message: "There was a problem processing the data.".to_string(),
    };
    let internal = ProcessError::InternalError {
        message: "There was an internal problem with the server.".to_string(),
    };
    assert_eq!(fetch.message(), "There was a problem fetching the data.");
    assert_eq!(data.message(), "There was a problem processing the data.");
    assert_eq!(
        internal.message(),
        "There was an internal problem with the server."
    );
}

#[test]
fn test_enum_shapes() {
    // The fatal-error taxonomy and the message assessments are plain
    // tagged values usable in matches.
    let error = GlobalFetchError::NotEnoughGamesToComputeAverage;
    assert!(matches!(error, GlobalFetchError::NotEnoughGamesToComputeAverage));
    assert!(matches!(
        GlobalFetchError::RequestedMoreGamesThanAvailableInTheUserDatabase,
        GlobalFetchError::RequestedMoreGamesThanAvailableInTheUserDatabase
    ));
    assert_ne!(
        DescriptionMessageAssessment::Positive,
        DescriptionMessageAssessment::Negative
    );
    assert_ne!(
        DescriptionMessageAssessment::Neutral,
        DescriptionMessageAssessment::Positive
    );
}
