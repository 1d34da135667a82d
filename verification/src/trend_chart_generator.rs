//! The ordered, display-numbered trend series of (differential, outcome)
//! pairs for charting.

use vstd::prelude::*;

use std::collections::HashMap;

use crate::games_info_generator::GameInfo;
use crate::service_intermediary::GameFetchWarning;
use crate::util::{has_user_won_game, spec_has_user_won_game};

verus! {

broadcast use vstd::std_specs::hash::group_hash_axioms;

/// One point of the trend chart: the half-time differential of a game in
/// centiseconds, whether the user won it, and its 1-based, gap-aware
/// display number.
#[derive(Debug, Clone, PartialEq)]
pub struct TrendChartDatum {
    pub time_differential: i64,
    pub win_status: String,
    pub game_number: i32,
}

/// How many of the first `n` indices carry a skip warning.
pub open spec fn spec_count_skipped(skipped: Map<usize, GameFetchWarning>, n: int) -> int
    decreases n,
{
    if n <= 0 {
        0
    } else {
        spec_count_skipped(skipped, n - 1) + if skipped.contains_key((n - 1) as usize) {
            1 as int
        } else {
            0 as int
        }
    }
}

pub proof fn lemma_count_skipped_range(skipped: Map<usize, GameFetchWarning>, a: int, b: int)
    requires
        0 <= a <= b,
    ensures
        0 <= spec_count_skipped(skipped, b) - spec_count_skipped(skipped, a) <= b - a,
    decreases b - a,
{
    if a < b {
        lemma_count_skipped_range(skipped, a, b - 1);
    }
}

/// The trend data of the first `n` games as ghost triples (differential,
/// user won, display number), one per unskipped game in index order. The
/// differential of the j-th unskipped game is `diffs[j]`, and the display
/// number of a game is one more than its stream index.
pub open spec fn spec_trend_data(
    games: Seq<GameInfo>,
    skipped: Map<usize, GameFetchWarning>,
    diffs: Seq<int>,
    n: int,
) -> Seq<(int, bool, int)>
    decreases n,
{
    if n <= 0 {
        Seq::empty()
    } else {
        let rest = spec_trend_data(games, skipped, diffs, n - 1);
        if skipped.contains_key((n - 1) as usize) {
            rest
        } else {
            rest.push(
                (
                    diffs[n - 1 - spec_count_skipped(skipped, n - 1)],
                    spec_has_user_won_game(games[n - 1]),
                    n,
                ),
            )
        }
    }
}

/// The shape of the trend series: it has one entry per unskipped game;
/// each display number is one more than the game's stream index, so it
/// equals 1 + (unskipped games seen so far) + (skipped games seen so far);
/// and the display numbers are strictly increasing.
pub proof fn lemma_trend_chart_properties(
    games: Seq<GameInfo>,
    skipped: Map<usize, GameFetchWarning>,
    diffs: Seq<int>,
    n: int,
)
    requires
        n >= 0,
    ensures
        ({
            let t = spec_trend_data(games, skipped, diffs, n);
            &&& t.len() == n - spec_count_skipped(skipped, n)
            &&& forall|j: int|
                0 <= j < t.len() ==> 1 <= (#[trigger] t[j]).2 <= n && !skipped.contains_key(
                    (t[j].2 - 1) as usize,
                ) && t[j].2 == 1 + j + spec_count_skipped(skipped, t[j].2 - 1)
            &&& forall|a: int, b: int| 0 <= a < b < t.len() ==> t[a].2 < t[b].2
        }),
    decreases n,
{
    if n > 0 {
        lemma_trend_chart_properties(games, skipped, diffs, n - 1);
        lemma_count_skipped_range(skipped, n - 1, n);
    }
}

/// The 1-based display number of an eligible game: its position among the
/// eligible games plus the number of skipped games before it, so the
/// chart's x-axis matches the user's own game numbering.
pub fn get_displayable_game_number(game_number: usize, nb_skipped_games: usize) -> (display:
    i32)
    requires
        game_number + 1 + nb_skipped_games <= i32::MAX,
    ensures
        display as int == game_number + 1 + nb_skipped_games,
{
    (game_number + 1 + nb_skipped_games) as i32
}

/// `"win"` when the user won the game; draws and losses both read
/// `"loss"`.
pub fn get_displayable_game_win_status(game_info: &GameInfo) -> (win_status: String)
    ensures
        win_status@ == if spec_has_user_won_game(*game_info) {
            "win"@
        } else {
            "loss"@
        },
{
    if has_user_won_game(game_info) {
        "win".to_owned()
    } else {
        "loss".to_owned()
    }
}

/// Builds the trend series over the unskipped games in index order,
/// pairing the j-th of them with the j-th differential.
pub fn generate(
    games: &Vec<GameInfo>,
    skipped_games: &HashMap<usize, GameFetchWarning>,
    half_time_differentials: Vec<i64>,
) -> (trend_chart_data: Vec<TrendChartDatum>)
    requires
        games@.len() <= i32::MAX,
        half_time_differentials@.len() >= games@.len() - spec_count_skipped(
            skipped_games@,
            games@.len() as int,
        ),
    ensures
        ({
            let t = spec_trend_data(
                games@,
                skipped_games@,
                half_time_differentials@.map_values(|d: i64| d as int),
                games@.len() as int,
            );
            &&& trend_chart_data@.len() == t.len()
            &&& forall|j: int|
                0 <= j < t.len() ==> (#[trigger] trend_chart_data@[j]).time_differential as int
                    == t[j].0 && trend_chart_data@[j].win_status@ == (if t[j].1 {
                    "win"@
                } else {
                    "loss"@
                }) && trend_chart_data@[j].game_number as int == t[j].2
        }),
{
    let ghost diff_views = half_time_differentials@.map_values(|d: i64| d as int);
    let mut trend_chart_data: Vec<TrendChartDatum> = Vec::new();
    let mut game_number_counter: usize = 0;
    let mut nb_skipped_games: usize = 0;

    let mut i: usize = 0;
    while i < games.len()
        invariant
            i <= games@.len(),
            games@.len() <= i32::MAX,
            diff_views == half_time_differentials@.map_values(|d: i64| d as int),
            diff_views.len() >= games@.len() - spec_count_skipped(
                skipped_games@,
                games@.len() as int,
            ),
            nb_skipped_games as int == spec_count_skipped(skipped_games@, i as int),
            nb_skipped_games <= i,
            game_number_counter == i - nb_skipped_games,
            ({
                let t = spec_trend_data(games@, skipped_games@, diff_views, i as int);
                &&& trend_chart_data@.len() == t.len()
                &&& t.len() == game_number_counter
                &&& forall|j: int|
                    0 <= j < t.len() ==> (#[trigger] trend_chart_data@[j]).time_differential
                        as int == t[j].0 && trend_chart_data@[j].win_status@ == (if t[j].1 {
                        "win"@
                    } else {
                        "loss"@
                    }) && trend_chart_data@[j].game_number as int == t[j].2
            }),
        decreases games@.len() - i,
    {
        if skipped_games.contains_key(&i) {
            // Already excluded: it only widens the numbering gap.
            nb_skipped_games = nb_skipped_games + 1;
        } else {
            proof {
                assert(spec_count_skipped(skipped_games@, i + 1) == spec_count_skipped(
                    skipped_games@,
                    i as int,
                ));
                lemma_count_skipped_range(skipped_games@, i + 1, games@.len() as int);
            }
            let trend_chart_datum = TrendChartDatum {
                time_differential: half_time_differentials[game_number_counter],
                win_status: get_displayable_game_win_status(&games[i]),
                game_number: get_displayable_game_number(game_number_counter, nb_skipped_games),
            };
            trend_chart_data.push(trend_chart_datum);
            game_number_counter = game_number_counter + 1;
        }
        i = i + 1;
    }

    trend_chart_data
}

} // verus!
