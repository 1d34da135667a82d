//! Mock raw records for exercising the pipeline without a record source.

use vstd::prelude::*;

use crate::deserialization::{Clock, GameJson, PlayerDetail, Players, User};

verus! {

/// The handful of record fields that a test wants to control; everything
/// else gets a fixed plausible value.
pub struct MinimalGameJsonInfoTesting {
    pub clocks: Option<Vec<i64>>,
    pub moves: Option<String>,
    pub black_player_name: Option<String>,
    pub white_player_name: Option<String>,
    pub winner: Option<String>,
}

/// Builds a full raw record around the given test fields.
pub fn create_mock_game_json(info: MinimalGameJsonInfoTesting) -> (game: GameJson)
    ensures
        game.clocks == info.clocks,
        game.moves == info.moves,
        game.winner == info.winner,
        game.status is Some && game.status.unwrap()@ == "mate"@,
        game.players is Some,
        ({
            let players = game.players.unwrap();
            &&& players.black is Some
            &&& players.black.unwrap().rating == Some(2054i32)
            &&& players.black.unwrap().user is Some
            &&& players.black.unwrap().user.unwrap().name == info.black_player_name
            &&& players.white is Some
            &&& players.white.unwrap().rating == Some(2000i32)
            &&& players.white.unwrap().user is Some
            &&& players.white.unwrap().user.unwrap().name == info.white_player_name
        }),
{
    GameJson {
        clock: Some(Clock { increment: Some(0), initial: Some(180), total_time: None }),
        clocks: info.clocks,
        created_at: Some(1672371185802),
        id: Some("9kZXlH2K".to_owned()),
        last_move_at: Some(1672371338481),
        moves: info.moves,
        perf: Some("blitz".to_owned()),
        players: Some(
            Players {
                black: Some(
                    PlayerDetail {
                        rating: Some(2054),
                        rating_diff: None,
                        user: Some(
                            User { id: Some("player1".to_owned()), name: info.black_player_name },
                        ),
                    },
                ),
                white: Some(
                    PlayerDetail {
                        rating: Some(2000),
                        rating_diff: None,
                        user: Some(
                            User { id: Some("player2".to_owned()), name: info.white_player_name },
                        ),
                    },
                ),
            },
        ),
        rated: Some(true),
        speed: Some("blitz".to_owned()),
        status: Some("mate".to_owned()),
        variant: Some("standard".to_owned()),
        winner: info.winner,
    }
}

/// A mock game of six moves where the user played black and white won;
/// its half-time differential is `17931 - 17939 = -8` centiseconds.
pub fn get_some_mocked_game_a() -> (game: GameJson)
    ensures
        game.clocks is Some && game.clocks.unwrap()@ == seq![
            18003i64,
            18003,
            17939,
            17931,
            17899,
            17867,
        ],
        game.moves is Some && game.moves.unwrap()@ == "e4 c5 Nf3 d6 d4 cxd4"@,
        game.winner is Some && game.winner.unwrap()@ == "white"@,
        game.status is Some && game.status.unwrap()@ == "mate"@,
        game.players is Some,
        ({
            let players = game.players.unwrap();
            &&& players.black is Some && players.black.unwrap().user is Some
            &&& players.black.unwrap().user.unwrap().name is Some
            &&& players.black.unwrap().user.unwrap().name.unwrap()@ == "user"@
            &&& players.white is Some && players.white.unwrap().user is Some
            &&& players.white.unwrap().user.unwrap().name is Some
            &&& players.white.unwrap().user.unwrap().name.unwrap()@ == "other_user"@
        }),
{
    create_mock_game_json(
        MinimalGameJsonInfoTesting {
            clocks: Some(vec![18003, 18003, 17939, 17931, 17899, 17867]),
            moves: Some("e4 c5 Nf3 d6 d4 cxd4".to_owned()),
            black_player_name: Some("user".to_owned()),
            white_player_name: Some("other_user".to_owned()),
            winner: Some("white".to_owned()),
        },
    )
}

/// A mock game of six moves (one trailing clock sample dropped) where the
/// user played white and black won; its half-time differential is
/// `17509 - 16931 = 578` centiseconds.
pub fn get_some_mocked_game_b() -> (game: GameJson)
    ensures
        game.clocks is Some && game.clocks.unwrap()@ == seq![
            18003i64,
            18003,
            17509,
            16931,
            17201,
            16000,
            17000,
        ],
        game.moves is Some && game.moves.unwrap()@ == "e4 c5 Nf3 d6 d4 cxd4"@,
        game.winner is Some && game.winner.unwrap()@ == "black"@,
        game.status is Some && game.status.unwrap()@ == "mate"@,
        game.players is Some,
        ({
            let players = game.players.unwrap();
            &&& players.black is Some && players.black.unwrap().user is Some
            &&& players.black.unwrap().user.unwrap().name is Some
            &&& players.black.unwrap().user.unwrap().name.unwrap()@ == "other_user"@
            &&& players.white is Some && players.white.unwrap().user is Some
            &&& players.white.unwrap().user.unwrap().name is Some
            &&& players.white.unwrap().user.unwrap().name.unwrap()@ == "user"@
        }),
{
    create_mock_game_json(
        MinimalGameJsonInfoTesting {
            clocks: Some(vec![18003, 18003, 17509, 16931, 17201, 16000, 17000]),
            moves: Some("e4 c5 Nf3 d6 d4 cxd4".to_owned()),
            black_player_name: Some("other_user".to_owned()),
            white_player_name: Some("user".to_owned()),
            winner: Some("black".to_owned()),
        },
    )
}

} // verus!
