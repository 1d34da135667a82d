//! The numeric analytics: per-game half-time differentials, the batch
//! average, the win rate, and the per-side flag counts.
//!
//! All times are kept in centiseconds as integers; a caller that wants
//! seconds divides by 100 at the presentation boundary. The average is
//! returned as an exact (sum, count) pair for the same reason.

use vstd::prelude::*;

use std::collections::HashMap;

use crate::games_info_generator::{GameInfo, TimedMove};
use crate::service_intermediary::GameFetchWarning;
use crate::util::{
    has_user_won_game, is_game_draw, spec_has_user_won_game, spec_is_game_draw, str_eq,
};

verus! {

broadcast use vstd::std_specs::hash::group_hash_axioms;

/// Games shorter than this many half-moves are excluded from the analytics
/// (outside of relaxed testing mode).
pub const MIN_NUMBER_OF_MOVES_IN_GAME: usize = 7;

/// The (white move, black move) index pair adjacent to the midpoint of a
/// game of `n` half-moves: an even midpoint takes the pair starting at it,
/// an odd midpoint the pair ending at it.
pub open spec fn spec_half_move_indices(n: int) -> (int, int) {
    let midpoint = n / 2;
    if midpoint % 2 == 0 {
        (midpoint, midpoint + 1)
    } else {
        (midpoint - 1, midpoint)
    }
}

/// The signed half-time differential of a game, in centiseconds: the
/// user's remaining clock time minus the opponent's, at the midpoint pair.
pub open spec fn spec_time_differential(game: GameInfo) -> int
    recommends
        game.timed_moves@.len() >= 2,
{
    let pair = spec_half_move_indices(game.timed_moves@.len() as int);
    let white_time = game.timed_moves@[pair.0].move_time as int;
    let black_time = game.timed_moves@[pair.1].move_time as int;
    if game.user_color@ == "white"@ {
        white_time - black_time
    } else {
        black_time - white_time
    }
}

/// Swapping the user's color between `"white"` and `"black"` while
/// holding the moves and clocks fixed negates the half-time differential.
pub proof fn lemma_user_color_swap_negates_differential(white_game: GameInfo, black_game: GameInfo)
    requires
        white_game.timed_moves@ == black_game.timed_moves@,
        white_game.user_color@ == "white"@,
        black_game.user_color@ == "black"@,
    ensures
        spec_time_differential(black_game) == -spec_time_differential(white_game),
{
    reveal_strlit("white");
    reveal_strlit("black");
    assert(black_game.user_color@[0] == 'b');
    assert(black_game.user_color@ != "white"@);
}

/// Picks the two moves adjacent to `midpoint` and orders them user first,
/// opponent second.
pub fn get_half_moves(timed_moves: &Vec<TimedMove>, midpoint: usize, is_user_white: bool) -> (
    half_moves: (TimedMove, TimedMove))
    requires
        midpoint % 2 == 0 ==> midpoint + 1 < timed_moves@.len(),
        midpoint % 2 == 1 ==> 1 <= midpoint < timed_moves@.len(),
    ensures
        ({
            let white_index = if midpoint % 2 == 0 {
                midpoint as int
            } else {
                midpoint - 1
            };
            let black_index = if midpoint % 2 == 0 {
                midpoint + 1
            } else {
                midpoint as int
            };
            let user_index = if is_user_white {
                white_index
            } else {
                black_index
            };
            let opponent_index = if is_user_white {
                black_index
            } else {
                white_index
            };
            &&& half_moves.0.move_key@ == timed_moves@[user_index].move_key@
            &&& half_moves.0.move_time == timed_moves@[user_index].move_time
            &&& half_moves.1.move_key@ == timed_moves@[opponent_index].move_key@
            &&& half_moves.1.move_time == timed_moves@[opponent_index].move_time
        }),
{
    let (white_move_index, black_move_index): (usize, usize) = if midpoint % 2 == 0 {
        (midpoint, midpoint + 1)
    } else {
        (midpoint - 1, midpoint)
    };

    let white_move = TimedMove {
        move_key: timed_moves[white_move_index].move_key.clone(),
        move_time: timed_moves[white_move_index].move_time,
    };
    let black_move = TimedMove {
        move_key: timed_moves[black_move_index].move_key.clone(),
        move_time: timed_moves[black_move_index].move_time,
    };

    if is_user_white {
        (white_move, black_move)
    } else {
        (black_move, white_move)
    }
}

/// The signed half-time differential of one game, in centiseconds.
pub fn compute_curr_game_time_differential(game: &GameInfo) -> (differential: i64)
    requires
        game.timed_moves@.len() >= 2,
        game.wf(),
    ensures
        differential as int == spec_time_differential(*game),
{
    let timed_moves: &Vec<TimedMove> = &game.timed_moves;

    let middle_cut_idx: usize = timed_moves.len() / 2;
    let is_user_white = str_eq(game.user_color.as_str(), "white");

    let (user_half_move, opponent_half_move) = get_half_moves(
        timed_moves,
        middle_cut_idx,
        is_user_white,
    );

    user_half_move.move_time - opponent_half_move.move_time
}

/// A game takes part in the analytics when no warning was recorded for its
/// index and (outside of testing mode) it is long enough.
pub open spec fn spec_game_eligible(
    games: Seq<GameInfo>,
    skipped: Map<usize, GameFetchWarning>,
    is_testing: bool,
    i: int,
) -> bool {
    &&& !skipped.contains_key(i as usize)
    &&& (is_testing || games[i].timed_moves@.len() >= MIN_NUMBER_OF_MOVES_IN_GAME as int)
}

/// The differentials of the first `n` games that are eligible under the
/// registry as it stood before the pass, in index order.
pub open spec fn spec_differentials(
    games: Seq<GameInfo>,
    skipped: Map<usize, GameFetchWarning>,
    is_testing: bool,
    n: int,
) -> Seq<int>
    decreases n,
{
    if n <= 0 {
        Seq::empty()
    } else {
        let rest = spec_differentials(games, skipped, is_testing, n - 1);
        if spec_game_eligible(games, skipped, is_testing, n - 1) {
            rest.push(spec_time_differential(games[n - 1]))
        } else {
            rest
        }
    }
}

/// The registry after the differential pass: every index it already held,
/// plus a `GameHasNotEnoughMoves` entry for every too-short game not yet
/// registered (production mode only).
pub open spec fn spec_skipped_after(
    games: Seq<GameInfo>,
    skipped: Map<usize, GameFetchWarning>,
    is_testing: bool,
) -> Map<usize, GameFetchWarning> {
    Map::new(
        |k: usize|
            skipped.contains_key(k) || (!is_testing && k < games.len()
                && games[k as int].timed_moves@.len() < MIN_NUMBER_OF_MOVES_IN_GAME as int),
        |k: usize|
            if skipped.contains_key(k) {
                skipped[k]
            } else {
                GameFetchWarning::GameHasNotEnoughMoves
            },
    )
}

/// One pass over the games in index order: records a warning for each
/// too-short unregistered game, and collects the differential of every
/// eligible one.
pub fn get_half_time_differentials(
    games: &Vec<GameInfo>,
    skipped_games: &mut HashMap<usize, GameFetchWarning>,
    is_testing: bool,
) -> (half_time_differentials: Vec<i64>)
    requires
        forall|i: int|
            0 <= i < games@.len() && spec_game_eligible(
                games@,
                old(skipped_games)@,
                is_testing,
                i,
            ) ==> (#[trigger] games@[i]).wf() && games@[i].timed_moves@.len() >= 2,
    ensures
        half_time_differentials@.map_values(|d: i64| d as int) == spec_differentials(
            games@,
            old(skipped_games)@,
            is_testing,
            games@.len() as int,
        ),
        final(skipped_games)@ == spec_skipped_after(games@, old(skipped_games)@, is_testing),
{
    let ghost initial_skipped = skipped_games@;
    let mut half_time_differentials: Vec<i64> = Vec::new();
    let mut i: usize = 0;
    while i < games.len()
        invariant
            i <= games@.len(),
            forall|idx: int|
                0 <= idx < games@.len() && spec_game_eligible(
                    games@,
                    initial_skipped,
                    is_testing,
                    idx,
                ) ==> (#[trigger] games@[idx]).wf() && games@[idx].timed_moves@.len() >= 2,
            forall|k: usize| #[trigger]
                skipped_games@.contains_key(k) <==> (initial_skipped.contains_key(k) || (
                !is_testing && k < i && games@[k as int].timed_moves@.len()
                    < MIN_NUMBER_OF_MOVES_IN_GAME as int)),
            forall|k: usize| #[trigger]
                skipped_games@.contains_key(k) ==> skipped_games@[k] == (
                if initial_skipped.contains_key(k) {
                    initial_skipped[k]
                } else {
                    GameFetchWarning::GameHasNotEnoughMoves
                }),
            half_time_differentials@.map_values(|d: i64| d as int) == spec_differentials(
                games@,
                initial_skipped,
                is_testing,
                i as int,
            ),
        decreases games@.len() - i,
    {
        let ghost prev_diffs = half_time_differentials@;
        if skipped_games.contains_key(&i) {
            // A warning is already recorded for this index; leave it out.
        } else if !is_testing && games[i].timed_moves.len() < MIN_NUMBER_OF_MOVES_IN_GAME {
            // Too short to analyze: record the exclusion, first write wins.
            skipped_games.insert(i, GameFetchWarning::GameHasNotEnoughMoves);
        } else {
            let differential = compute_curr_game_time_differential(&games[i]);
            half_time_differentials.push(differential);
            proof {
                assert(half_time_differentials@.map_values(|d: i64| d as int)
                    =~= prev_diffs.map_values(|d: i64| d as int).push(differential as int));
            }
        }
        i = i + 1;
    }
    proof {
        assert(skipped_games@ =~= spec_skipped_after(games@, initial_skipped, is_testing));
    }
    half_time_differentials
}

/// An exact batch average: the sum of the averaged values and how many
/// there were. The mean itself is `total_centiseconds / game_count`.
#[derive(Debug, PartialEq, Eq, Structural, Clone, Copy)]
pub struct TimeAverage {
    pub total_centiseconds: i128,
    pub game_count: usize,
}

/// The sum of a sequence of integers.
pub open spec fn spec_sum(s: Seq<int>) -> int
    decreases s.len(),
{
    if s.len() == 0 {
        0
    } else {
        spec_sum(s.drop_last()) + s.last()
    }
}

proof fn lemma_sum_push(s: Seq<int>, x: int)
    ensures
        spec_sum(s.push(x)) == spec_sum(s) + x,
{
    assert(s.push(x).drop_last() =~= s);
}

/// The arithmetic mean of the differentials as an exact fraction, or
/// `None` when no game was eligible — a defined zero average and an
/// undefined one stay distinguishable.
pub fn process_average_time(half_time_differentials: &Vec<i64>) -> (average: Option<
    TimeAverage,
>)
    ensures
        average is Some <==> half_time_differentials@.len() > 0,
        average is Some ==> average.unwrap().total_centiseconds as int == spec_sum(
            half_time_differentials@.map_values(|d: i64| d as int),
        ) && average.unwrap().game_count == half_time_differentials@.len(),
{
    if half_time_differentials.len() == 0 {
        // No games were kept in the computation: the average is undefined.
        return None;
    }

    let ghost all = half_time_differentials@.map_values(|d: i64| d as int);
    let mut total: i128 = 0;
    let mut i: usize = 0;
    while i < half_time_differentials.len()
        invariant
            i <= half_time_differentials@.len(),
            all == half_time_differentials@.map_values(|d: i64| d as int),
            total as int == spec_sum(all.take(i as int)),
            -(i as int) * 0x8000_0000_0000_0000 <= total as int <= (i as int)
                * 0x7fff_ffff_ffff_ffff,
        decreases half_time_differentials@.len() - i,
    {
        let d = half_time_differentials[i];
        proof {
            assert(all.take(i as int).push(d as int) =~= all.take(i + 1));
            lemma_sum_push(all.take(i as int), d as int);
            assert(-(i as int) * 0x8000_0000_0000_0000 - 0x8000_0000_0000_0000 == -((i + 1)
                as int) * 0x8000_0000_0000_0000) by (nonlinear_arith);
            assert((i as int) * 0x7fff_ffff_ffff_ffff + 0x7fff_ffff_ffff_ffff == ((i + 1)
                as int) * 0x7fff_ffff_ffff_ffff) by (nonlinear_arith);
            assert(((i + 1) as int) * 0x8000_0000_0000_0000 <= 0x1_0000_0000_0000_0000
                * 0x8000_0000_0000_0000) by (nonlinear_arith)
                requires (i + 1) as int <= 0x1_0000_0000_0000_0000;
            assert(((i + 1) as int) * 0x7fff_ffff_ffff_ffff <= 0x1_0000_0000_0000_0000
                * 0x7fff_ffff_ffff_ffff) by (nonlinear_arith)
                requires (i + 1) as int <= 0x1_0000_0000_0000_0000;
        }
        total = total + d as i128;
        i = i + 1;
    }
    proof {
        assert(all.take(half_time_differentials@.len() as int) =~= all);
    }
    Some(TimeAverage { total_centiseconds: total, game_count: half_time_differentials.len() })
}

/// An exact win rate: how many of the considered games the user won, and
/// how many games were considered at all (everything but skipped games and
/// draws).
#[derive(Debug, PartialEq, Eq, Structural, Clone, Copy)]
pub struct WinRate {
    pub n_wins: usize,
    pub n_games_considered: usize,
}

/// How many of the first `n` games are unskipped wins for the user.
pub open spec fn spec_count_wins(
    games: Seq<GameInfo>,
    skipped: Map<usize, GameFetchWarning>,
    n: int,
) -> int
    decreases n,
{
    if n <= 0 {
        0
    } else {
        spec_count_wins(games, skipped, n - 1) + if !skipped.contains_key((n - 1) as usize)
            && !spec_is_game_draw(games[n - 1]) && spec_has_user_won_game(games[n - 1]) {
            1 as int
        } else {
            0 as int
        }
    }
}

/// How many of the first `n` games are excluded from the win rate: skipped
/// or drawn.
pub open spec fn spec_count_excluded(
    games: Seq<GameInfo>,
    skipped: Map<usize, GameFetchWarning>,
    n: int,
) -> int
    decreases n,
{
    if n <= 0 {
        0
    } else {
        spec_count_excluded(games, skipped, n - 1) + if skipped.contains_key((n - 1) as usize)
            || spec_is_game_draw(games[n - 1]) {
            1 as int
        } else {
            0 as int
        }
    }
}

/// Counts the user's wins over the games that are neither skipped nor
/// drawn. The wins never exceed the considered games, so a caller that
/// divides only when `n_wins > 0` never divides by zero.
pub fn process_win_rate(
    games: &Vec<GameInfo>,
    skipped_games: &HashMap<usize, GameFetchWarning>,
) -> (win_rate: WinRate)
    ensures
        win_rate.n_wins as int == spec_count_wins(games@, skipped_games@, games@.len() as int),
        win_rate.n_games_considered as int == games@.len() - spec_count_excluded(
            games@,
            skipped_games@,
            games@.len() as int,
        ),
        win_rate.n_wins <= win_rate.n_games_considered,
{
    let mut n_games_considered: usize = games.len();
    let mut n_wins: usize = 0;

    let mut i: usize = 0;
    while i < games.len()
        invariant
            i <= games@.len(),
            n_wins as int == spec_count_wins(games@, skipped_games@, i as int),
            spec_count_excluded(games@, skipped_games@, i as int) <= i,
            n_games_considered as int == games@.len() - spec_count_excluded(
                games@,
                skipped_games@,
                i as int,
            ),
            n_wins as int <= i - spec_count_excluded(games@, skipped_games@, i as int),
        decreases games@.len() - i,
    {
        if skipped_games.contains_key(&i) || is_game_draw(&games[i]) {
            // Skipped or drawn: this game counts for neither side.
            n_games_considered = n_games_considered - 1;
        } else if has_user_won_game(&games[i]) {
            n_wins = n_wins + 1;
        }
        i = i + 1;
    }

    WinRate { n_wins, n_games_considered }
}

/// How many of the first `n` games are unskipped, decided by clock
/// expiration, and won by the user.
pub open spec fn spec_count_user_flags(
    games: Seq<GameInfo>,
    skipped: Map<usize, GameFetchWarning>,
    n: int,
) -> int
    decreases n,
{
    if n <= 0 {
        0
    } else {
        spec_count_user_flags(games, skipped, n - 1) + if !skipped.contains_key((n - 1) as usize)
            && !spec_is_game_draw(games[n - 1]) && games[n - 1].game_status@ == "outoftime"@
            && spec_has_user_won_game(games[n - 1]) {
            1 as int
        } else {
            0 as int
        }
    }
}

/// How many of the first `n` games are unskipped, decided by clock
/// expiration, and lost by the user.
pub open spec fn spec_count_opponent_flags(
    games: Seq<GameInfo>,
    skipped: Map<usize, GameFetchWarning>,
    n: int,
) -> int
    decreases n,
{
    if n <= 0 {
        0
    } else {
        spec_count_opponent_flags(games, skipped, n - 1) + if !skipped.contains_key(
            (n - 1) as usize,
        ) && !spec_is_game_draw(games[n - 1]) && games[n - 1].game_status@ == "outoftime"@
            && !spec_has_user_won_game(games[n - 1]) {
            1 as int
        } else {
            0 as int
        }
    }
}

/// Attributes each clock expiration to the winner of its game: the user's
/// flag count first, the opponents' second. Draws, skipped games, and
/// games decided any other way count for neither side.
pub fn process_flag_info(
    games: &Vec<GameInfo>,
    skipped_games: &HashMap<usize, GameFetchWarning>,
) -> (flag_counts: (i32, i32))
    requires
        games@.len() <= i32::MAX,
    ensures
        flag_counts.0 as int == spec_count_user_flags(
            games@,
            skipped_games@,
            games@.len() as int,
        ),
        flag_counts.1 as int == spec_count_opponent_flags(
            games@,
            skipped_games@,
            games@.len() as int,
        ),
{
    let mut user_flag_count: i32 = 0;
    let mut opponent_flag_count: i32 = 0;

    let mut i: usize = 0;
    while i < games.len()
        invariant
            i <= games@.len(),
            games@.len() <= i32::MAX,
            user_flag_count as int == spec_count_user_flags(games@, skipped_games@, i as int),
            opponent_flag_count as int == spec_count_opponent_flags(
                games@,
                skipped_games@,
                i as int,
            ),
            user_flag_count as int <= i,
            opponent_flag_count as int <= i,
        decreases games@.len() - i,
    {
        let game = &games[i];
        if !skipped_games.contains_key(&i) && !is_game_draw(game) && str_eq(
            game.game_status.as_str(),
            "outoftime",
        ) {
            if has_user_won_game(game) {
                user_flag_count = user_flag_count + 1;
            } else {
                opponent_flag_count = opponent_flag_count + 1;
            }
        }
        i = i + 1;
    }

    (user_flag_count, opponent_flag_count)
}

} // verus!
