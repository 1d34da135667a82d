//! Tests for record normalization: move/clock alignment, color and
//! rating resolution, and opponent deduplication.

use chess_insights::games_info_generator::{
    generate, generate_timed_moves, get_opponents_and_their_rating, get_user_color,
    split_move_list, TimedMove,
};
use chess_insights::unit_test_util::{
    create_mock_game_json, get_some_mocked_game_a, get_some_mocked_game_b,
    MinimalGameJsonInfoTesting,
};

#[test]
fn test_generate_timed_moves() {
    let game_json = get_some_mocked_game_a();
    let res: Vec<TimedMove> = generate_timed_moves(&game_json);

    assert_eq!(res.len(), 6);
    assert_eq!(res[0].move_key, "e4");
    assert_eq!(res[0].move_time, 18003);
    assert_eq!(res[1].move_key, "c5");
    assert_eq!(res[3].move_time, 17931);
}

#[test]
fn test_generate_game_info_struct() {
    // Test with mocked game A.
    {
        let game_json = get_some_mocked_game_a();
        let res = generate(&game_json, &0, &"user".to_string());

        assert_eq!(res.game_index, 0);
        assert_eq!(res.timed_moves[0], generate_timed_moves(&game_json)[0]);
        assert_eq!(res.user_color, "black");
        assert_eq!(res.winner_color, Some("white".to_string()));
    }

    // Test with mocked game B.
    {
        let game_json = get_some_mocked_game_b();
        let res = generate(&game_json, &1, &"user".to_string());

        assert_eq!(res.game_index, 1);
        assert_eq!(res.timed_moves[3], generate_timed_moves(&game_json)[3]);
        assert_eq!(res.user_color, "white");
        assert_eq!(res.winner_color, Some("black".to_string()));
    }
}

#[test]
fn test_trailing_clock_sample_is_dropped() {
    // Game B carries seven clock samples for six moves: the sample taken
    // after the game-ending move pairs with nothing and is dropped.
    let game_json = get_some_mocked_game_b();
    let res = generate_timed_moves(&game_json);
    assert_eq!(res.len(), 6);
    assert_eq!(res[5].move_time, 16000);
}

#[test]
fn test_user_color_match_is_case_insensitive() {
    // The black side is "User"; a request for "uSER" must still resolve
    // to black, so the comparison really folds case on both sides.
    let game_json = create_mock_game_json(MinimalGameJsonInfoTesting {
        clocks: Some(vec![100, 90, 80, 70]),
        moves: Some("e4 e5 Nf3 Nc6".to_string()),
        black_player_name: Some("User".to_string()),
        white_player_name: Some("someone_else".to_string()),
        winner: None,
    });
    assert_eq!(get_user_color(&game_json, "uSER"), "black");
    // And an unrelated name falls back to white.
    assert_eq!(get_user_color(&game_json, "visitor"), "white");
}

#[test]
fn test_generate_resolves_ratings_and_opponent() {
    // User is black (rating 2054); the opponent is the white side.
    let res = generate(&get_some_mocked_game_a(), &0, &"user".to_string());
    assert_eq!(res.user_rating, 2054);
    assert_eq!(res.opponent_rating, 2000);
    assert_eq!(res.opponent_username, "other_user");
    assert_eq!(res.game_status, "mate");
}

#[test]
fn test_split_move_list_keeps_empty_tokens() {
    let split = |s: &str| -> Vec<String> { split_move_list(s) };
    assert_eq!(split("e4 c5 Nf3"), vec!["e4", "c5", "Nf3"]);
    assert_eq!(split(""), vec![""]);
    assert_eq!(split("a  b"), vec!["a", "", "b"]);
    assert_eq!(split("a "), vec!["a", ""]);
}

#[test]
fn test_get_opponents_and_their_rating_deduplicates() {
    let game_a = generate(&get_some_mocked_game_a(), &0, &"user".to_string());
    let game_a_again = generate(&get_some_mocked_game_a(), &1, &"user".to_string());
    let game_b = generate(&get_some_mocked_game_b(), &2, &"user".to_string());

    let games = vec![game_a, game_a_again, game_b];
    let opponents = get_opponents_and_their_rating(&games);

    // Game A's opponent is white ("other_user", 2000) twice over; game
    // B's opponent is black ("other_user", 2054).
    assert_eq!(opponents.len(), 2);
    assert!(opponents.contains(&("other_user".to_string(), 2000)));
    assert!(opponents.contains(&("other_user".to_string(), 2054)));
}
