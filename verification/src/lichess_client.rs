//! The record-source request URL, the per-record ingestion step, and the
//! composition of the whole analytics pipeline.
//!
//! The transport itself (HTTP, the response stream, progress delivery)
//! lives outside the crate; ingestion is exposed as a state machine that
//! consumes one decoded record at a time, so that the surrounding loop
//! holds no logic of its own.

use vstd::prelude::*;

use std::collections::HashMap;

use crate::deserialization::{spec_displayable_upto, GameJson};
use crate::deserialization::convert_games_with_errors_to_displayable_format;
use crate::games_info_generator::{
    generate, record_normalizable, spec_opponent_color, spec_side_rating, spec_side_username,
    spec_user_color, split_at_spaces, split_move_list, timed_moves_match, GameInfo,
};
use crate::games_info_processor::{
    get_half_time_differentials, process_average_time, process_flag_info, process_win_rate,
    spec_differentials, spec_skipped_after, spec_sum, spec_count_wins, spec_count_excluded,
    spec_count_user_flags, spec_count_opponent_flags, TimeAverage, WinRate,
};
use crate::service_intermediary::{ChessDataRequest, GameFetchWarning};
use crate::trend_chart_generator::{spec_count_skipped, spec_trend_data, TrendChartDatum};
use crate::util::str_eq;

verus! {

broadcast use vstd::std_specs::hash::group_hash_axioms;

/// The decimal digit character for `d`.
pub open spec fn spec_digit(d: int) -> char {
    if d == 0 {
        '0'
    } else if d == 1 {
        '1'
    } else if d == 2 {
        '2'
    } else if d == 3 {
        '3'
    } else if d == 4 {
        '4'
    } else if d == 5 {
        '5'
    } else if d == 6 {
        '6'
    } else if d == 7 {
        '7'
    } else if d == 8 {
        '8'
    } else {
        '9'
    }
}

/// The decimal digits of a non-negative integer, most significant first.
pub open spec fn spec_udecimal(n: int) -> Seq<char>
    decreases n,
{
    if n < 10 {
        seq![spec_digit(n)]
    } else {
        spec_udecimal(n / 10).push(spec_digit(n % 10))
    }
}

/// The decimal rendering of an integer, with a leading minus sign when
/// negative.
pub open spec fn spec_decimal(n: int) -> Seq<char> {
    if n < 0 {
        seq!['-'] + spec_udecimal(-n)
    } else {
        spec_udecimal(n)
    }
}

fn digit_str(d: u32) -> (s: &'static str)
    requires
        d < 10,
    ensures
        s@ == seq![spec_digit(d as int)],
{
    let s: &'static str = match d {
        0 => "0",
        1 => "1",
        2 => "2",
        3 => "3",
        4 => "4",
        5 => "5",
        6 => "6",
        7 => "7",
        8 => "8",
        _ => "9",
    };
    proof {
        reveal_strlit("0");
        reveal_strlit("1");
        reveal_strlit("2");
        reveal_strlit("3");
        reveal_strlit("4");
        reveal_strlit("5");
        reveal_strlit("6");
        reveal_strlit("7");
        reveal_strlit("8");
        reveal_strlit("9");
        assert(s@ =~= seq![spec_digit(d as int)]);
    }
    s
}

fn push_udecimal(out: &mut String, n: u32)
    ensures
        final(out)@ == old(out)@ + spec_udecimal(n as int),
    decreases n,
{
    if n < 10 {
        out.append(digit_str(n));
        proof {
            assert(out@ =~= old(out)@ + spec_udecimal(n as int));
        }
    } else {
        push_udecimal(out, n / 10);
        out.append(digit_str(n % 10));
        proof {
            assert(out@ =~= old(out)@ + spec_udecimal(n as int));
        }
    }
}

fn push_decimal(out: &mut String, n: i32)
    ensures
        final(out)@ == old(out)@ + spec_decimal(n as int),
{
    if n < 0 {
        out.append("-");
        let magnitude = (-(n as i64)) as u32;
        push_udecimal(out, magnitude);
        proof {
            reveal_strlit("-");
            assert(out@ =~= old(out)@ + spec_decimal(n as int));
        }
    } else {
        push_udecimal(out, n as u32);
    }
}

/// The full record-source URL for a request. The color filter is omitted
/// when the request asks for both colors.
pub open spec fn spec_url(request_data: ChessDataRequest) -> Seq<char> {
    "https://lichess.org/api/games/user/"@ + request_data.username@ + "?max="@ + spec_decimal(
        request_data.games_count as int,
    ) + "&perfType="@ + request_data.game_mode@ + (if request_data.user_color@ == "both"@ {
        Seq::<char>::empty()
    } else {
        "&color="@ + request_data.user_color@
    }) + "&rated=true&clocks=true"@
}

/// Builds the record-source URL for `request_data`.
pub fn get_url(request_data: &ChessDataRequest) -> (url: String)
    ensures
        url@ == spec_url(*request_data),
{
    let mut url = String::new();
    url.append("https://lichess.org/api/games/user/");
    url.append(request_data.username.as_str());
    url.append("?max=");
    push_decimal(&mut url, request_data.games_count);
    url.append("&perfType=");
    url.append(request_data.game_mode.as_str());
    // The color query parameter acts as a filter; a request for both
    // colors omits it altogether.
    if !str_eq(request_data.user_color.as_str(), "both") {
        url.append("&color=");
        url.append(request_data.user_color.as_str());
    }
    url.append("&rated=true&clocks=true");
    proof {
        assert(url@ =~= spec_url(*request_data));
    }
    url
}

/// A record is accepted by ingestion when it can be normalized and every
/// clock sample that pairs with a move is a valid (non-negative)
/// remaining time.
pub open spec fn spec_record_accepted(game: GameJson) -> bool {
    &&& record_normalizable(game)
    &&& forall|i: int|
        0 <= i < split_at_spaces(game.moves.unwrap()@).len() ==> (
        #[trigger] game.clocks.unwrap()@[i]) >= 0
}

fn check_record(game: &GameJson) -> (accepted: bool)
    ensures
        accepted == spec_record_accepted(*game),
{
    if game.moves.is_none() {
        return false;
    }
    if game.clocks.is_none() {
        return false;
    }
    if game.status.is_none() {
        return false;
    }
    if let Some(players) = game.players.as_ref() {
        match players.black.as_ref() {
            Some(detail) => {
                match detail.user.as_ref() {
                    Some(user) => {
                        if user.name.is_none() {
                            return false;
                        }
                    },
                    None => {
                        return false;
                    },
                }
            },
            None => {
                return false;
            },
        }
        match players.white.as_ref() {
            Some(detail) => {
                match detail.user.as_ref() {
                    Some(user) => {
                        if user.name.is_none() {
                            return false;
                        }
                    },
                    None => {
                        return false;
                    },
                }
            },
            None => {
                return false;
            },
        }
    }
    let tokens = split_move_list(game.moves.as_ref().unwrap().as_str());
    let clocks: &Vec<i64> = game.clocks.as_ref().unwrap();
    if clocks.len() < tokens.len() {
        return false;
    }
    let mut i: usize = 0;
    while i < tokens.len()
        invariant
            i <= tokens@.len(),
            clocks@.len() >= tokens@.len(),
            game.moves is Some,
            game.clocks is Some,
            clocks@ == game.clocks.unwrap()@,
            tokens@.map_values(|t: String| t@) == split_at_spaces(game.moves.unwrap()@),
            forall|j: int| 0 <= j < i ==> (#[trigger] clocks@[j]) >= 0,
        decreases tokens@.len() - i,
    {
        if clocks[i] < 0 {
            return false;
        }
        i = i + 1;
    }
    true
}

/// The shared mutable state of one ingestion run: the collected games,
/// the skip registry, and the next logical index to assign.
pub struct IngestState {
    pub games_info: Vec<GameInfo>,
    pub skipped_games: HashMap<usize, GameFetchWarning>,
    pub next_game_idx: usize,
}

impl IngestState {
    /// Index assignment and the collection stay aligned: the j-th
    /// collected game carries index j and valid clock samples, and
    /// warnings only name assigned indices.
    pub open spec fn wf(&self) -> bool {
        &&& self.next_game_idx == self.games_info@.len()
        &&& forall|j: int|
            0 <= j < self.games_info@.len() ==> (#[trigger] self.games_info@[j]).game_index == j
                && self.games_info@[j].wf()
        &&& forall|k: usize| #[trigger]
            self.skipped_games@.contains_key(k) ==> (k as int) < self.games_info@.len()
    }

    pub fn new() -> (state: IngestState)
        ensures
            state.wf(),
            state.games_info@.len() == 0,
            state.skipped_games@ == Map::<usize, GameFetchWarning>::empty(),
            state.next_game_idx == 0,
    {
        IngestState {
            games_info: Vec::new(),
            skipped_games: HashMap::new(),
            next_game_idx: 0,
        }
    }

    /// Consumes one decoded record (`None` for a line that did not
    /// decode), assigns it the next logical index, and routes it: an
    /// accepted record joins the collection as a normalized `GameInfo`;
    /// anything else takes the index as an inert placeholder plus an
    /// `InternalError` warning, so later passes skip it while the
    /// numbering still accounts for it. Returns the assigned index so the
    /// caller can report progress; the index is fixed here, before any
    /// further record is looked at, so no two records can share one.
    pub fn ingest_record(&mut self, record: Option<&GameJson>, user_name: &String) -> (assigned:
        usize)
        requires
            old(self).wf(),
            old(self).next_game_idx < usize::MAX,
        ensures
            final(self).wf(),
            assigned == old(self).next_game_idx,
            final(self).next_game_idx == old(self).next_game_idx + 1,
            final(self).games_info@.len() == old(self).games_info@.len() + 1,
            forall|j: int|
                0 <= j < old(self).games_info@.len() ==> final(self).games_info@[j] == old(
                    self,
                ).games_info@[j],
            ({
                let info = final(self).games_info@.last();
                if record matches Some(game) && spec_record_accepted(*game) {
                    let game = *record.unwrap();
                    let user_color = spec_user_color(game, user_name@);
                    &&& final(self).skipped_games@ == old(self).skipped_games@
                    &&& timed_moves_match(info.timed_moves@, game)
                    &&& info.user_color@ == user_color
                    &&& info.user_rating as int == spec_side_rating(game, user_color)
                    &&& info.opponent_rating as int == spec_side_rating(
                        game,
                        spec_opponent_color(user_color),
                    )
                    &&& info.opponent_username@ == spec_side_username(
                        game,
                        spec_opponent_color(user_color),
                    )
                    &&& (info.winner_color is Some <==> game.winner is Some)
                    &&& (info.winner_color is Some ==> info.winner_color.unwrap()@
                        == game.winner.unwrap()@)
                    &&& info.game_status@ == game.status.unwrap()@
                } else {
                    &&& final(self).skipped_games@ == old(self).skipped_games@.insert(
                        old(self).next_game_idx,
                        GameFetchWarning::InternalErrorOccuredWhileProcessingAGame,
                    )
                    &&& info.timed_moves@.len() == 0
                }
            }),
    {
        let assigned = self.next_game_idx;
        match record {
            Some(game) => {
                if check_record(game) {
                    let info = generate(game, &assigned, user_name);
                    self.games_info.push(info);
                    self.next_game_idx = assigned + 1;
                    return assigned;
                }
            },
            None => {},
        }
        // The line did not decode into a usable record: keep the index,
        // park a placeholder under it, and record the warning (the index
        // is fresh, so this is its first classification).
        self.games_info.push(
            GameInfo {
                game_index: assigned,
                timed_moves: Vec::new(),
                user_color: "white".to_owned(),
                user_rating: 0,
                opponent_rating: 0,
                opponent_username: String::new(),
                winner_color: None,
                game_status: String::new(),
            },
        );
        self.skipped_games.insert(
            assigned,
            GameFetchWarning::InternalErrorOccuredWhileProcessingAGame,
        );
        self.next_game_idx = assigned + 1;
        assigned
    }
}

/// Everything the caller receives for one completed batch.
#[derive(Debug, PartialEq)]
pub struct ProcessedGames {
    pub average_time: Option<TimeAverage>,
    pub win_rate: WinRate,
    pub flag_counts: (i32, i32),
    pub trend_chart_data: Vec<TrendChartDatum>,
    pub games_with_errors: Vec<(usize, String)>,
}

/// The differential pass emits exactly one value per game that the
/// updated registry leaves unskipped.
pub proof fn lemma_differentials_length(
    games: Seq<GameInfo>,
    skipped: Map<usize, GameFetchWarning>,
    n: int,
)
    requires
        0 <= n <= games.len() <= usize::MAX,
    ensures
        spec_differentials(games, skipped, false, n).len() == n - spec_count_skipped(
            spec_skipped_after(games, skipped, false),
            n,
        ),
    decreases n,
{
    if n > 0 {
        lemma_differentials_length(games, skipped, n - 1);
        let k = (n - 1) as usize;
        assert(spec_skipped_after(games, skipped, false).contains_key(k) <==> (
        skipped.contains_key(k) || (k < games.len() && games[k as int].timed_moves@.len()
            < crate::games_info_processor::MIN_NUMBER_OF_MOVES_IN_GAME as int)));
        assert(games[k as int] == games[n - 1]);
        assert(crate::games_info_processor::spec_game_eligible(games, skipped, false, n - 1)
            <==> (!skipped.contains_key(k) && games[k as int].timed_moves@.len()
            >= crate::games_info_processor::MIN_NUMBER_OF_MOVES_IN_GAME as int));
        assert(crate::games_info_processor::spec_game_eligible(games, skipped, false, n - 1)
            <==> !spec_skipped_after(games, skipped, false).contains_key(k));
    }
}

/// The whole aggregate result is this function of the materialized games
/// and the registry as it stood before processing: the differentials of
/// the eligible games in index order, their exact average, the win rate
/// and flag counts over the updated registry, the trend series, and the
/// displayable warnings.
pub open spec fn spec_processed_matches(
    games: Seq<GameInfo>,
    skipped: Map<usize, GameFetchWarning>,
    processed: ProcessedGames,
) -> bool {
    let n = games.len() as int;
    let updated = spec_skipped_after(games, skipped, false);
    let diffs = spec_differentials(games, skipped, false, n);
    let trend = spec_trend_data(games, updated, diffs, n);
    &&& (processed.average_time is Some <==> diffs.len() > 0)
    &&& (processed.average_time is Some ==> processed.average_time.unwrap().total_centiseconds
        as int == spec_sum(diffs) && processed.average_time.unwrap().game_count as int
        == diffs.len())
    &&& processed.win_rate.n_wins as int == spec_count_wins(games, updated, n)
    &&& processed.win_rate.n_games_considered as int == n - spec_count_excluded(games, updated, n)
    &&& processed.flag_counts.0 as int == spec_count_user_flags(games, updated, n)
    &&& processed.flag_counts.1 as int == spec_count_opponent_flags(games, updated, n)
    &&& processed.trend_chart_data@.len() == trend.len()
    &&& forall|j: int|
        0 <= j < trend.len() ==> (#[trigger] processed.trend_chart_data@[j]).time_differential
            as int == trend[j].0 && processed.trend_chart_data@[j].win_status@ == (if trend[j].1 {
            "win"@
        } else {
            "loss"@
        }) && processed.trend_chart_data@[j].game_number as int == trend[j].2
    &&& processed.games_with_errors@.map_values(|q: (usize, String)| (q.0 as int, q.1@))
        == spec_displayable_upto(updated, usize::MAX as int)
}

/// Runs the analytics over a materialized batch: the differential pass
/// (which may add `NotEnoughMoves` warnings to the registry), the
/// average, the win rate, the flag counts, the trend series, and the
/// displayable warnings.
pub fn process_games(
    games: &Vec<GameInfo>,
    skipped_games: &mut HashMap<usize, GameFetchWarning>,
) -> (processed: ProcessedGames)
    requires
        games@.len() <= i32::MAX,
        forall|i: int| 0 <= i < games@.len() ==> (#[trigger] games@[i]).wf(),
        forall|k: usize| #[trigger]
            old(skipped_games)@.contains_key(k) ==> (k as int) < games@.len(),
    ensures
        spec_processed_matches(games@, old(skipped_games)@, processed),
        final(skipped_games)@ == spec_skipped_after(games@, old(skipped_games)@, false),
{
    let ghost initial_skipped = skipped_games@;
    let half_time_differentials = get_half_time_differentials(games, skipped_games, false);
    let average_time = process_average_time(&half_time_differentials);
    let win_rate = process_win_rate(games, skipped_games);
    let flag_counts = process_flag_info(games, skipped_games);
    proof {
        lemma_differentials_length(games@, initial_skipped, games@.len() as int);
    }
    let trend_chart_data = crate::trend_chart_generator::generate(
        games,
        skipped_games,
        half_time_differentials,
    );
    proof {
        assert forall|k: usize| #[trigger]
            skipped_games@.contains_key(k) implies k < usize::MAX by {}
    }
    let games_with_errors = convert_games_with_errors_to_displayable_format(
        skipped_games.clone(),
    );
    ProcessedGames { average_time, win_rate, flag_counts, trend_chart_data, games_with_errors }
}

/// Re-running the pipeline on an identical, already-materialized batch
/// and registry yields identical aggregate output, character for
/// character: every field is pinned by the same function of the inputs.
pub proof fn lemma_pipeline_deterministic(
    games: Seq<GameInfo>,
    skipped: Map<usize, GameFetchWarning>,
    r1: ProcessedGames,
    r2: ProcessedGames,
)
    requires
        spec_processed_matches(games, skipped, r1),
        spec_processed_matches(games, skipped, r2),
    ensures
        r1.average_time == r2.average_time,
        r1.win_rate == r2.win_rate,
        r1.flag_counts == r2.flag_counts,
        r1.trend_chart_data@.len() == r2.trend_chart_data@.len(),
        forall|j: int|
            0 <= j < r1.trend_chart_data@.len() ==> (
            #[trigger] r1.trend_chart_data@[j]).time_differential
                == r2.trend_chart_data@[j].time_differential && r1.trend_chart_data@[j].win_status@
                == r2.trend_chart_data@[j].win_status@ && r1.trend_chart_data@[j].game_number
                == r2.trend_chart_data@[j].game_number,
        r1.games_with_errors@.len() == r2.games_with_errors@.len(),
        forall|j: int|
            0 <= j < r1.games_with_errors@.len() ==> (#[trigger] r1.games_with_errors@[j]).0
                == r2.games_with_errors@[j].0 && r1.games_with_errors@[j].1@
                == r2.games_with_errors@[j].1@,
{
    let updated = spec_skipped_after(games, skipped, false);
    let rendered = spec_displayable_upto(updated, usize::MAX as int);
    let m1 = r1.games_with_errors@.map_values(|q: (usize, String)| (q.0 as int, q.1@));
    let m2 = r2.games_with_errors@.map_values(|q: (usize, String)| (q.0 as int, q.1@));
    assert(m1.len() == m2.len());
    assert forall|j: int| 0 <= j < r1.games_with_errors@.len() implies (
    #[trigger] r1.games_with_errors@[j]).0 == r2.games_with_errors@[j].0
        && r1.games_with_errors@[j].1@ == r2.games_with_errors@[j].1@ by {
        assert(m1[j] == rendered[j]);
        assert(m2[j] == rendered[j]);
    }
}

} // verus!
