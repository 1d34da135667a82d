//! Turning one raw record into a validated `GameInfo`.
//!
//! The move list arrives as a single space-delimited token string and the
//! clock samples as a parallel list of centisecond values; normalization
//! aligns the two, resolves which side the user played, and carries the
//! opponent's identity and the outcome through for the analytics.

use vstd::prelude::*;

use crate::deserialization::{GameJson, PlayerDetail};
use crate::util::{lower_of, lowercase, str_eq};

verus! {

/// A single ply: the algebraic-notation token of the move and the mover's
/// remaining clock time after it, in centiseconds.
#[derive(Debug, Clone, PartialEq, Eq)]
pub struct TimedMove {
    pub move_key: String,
    pub move_time: i64,
}

/// One completed game as seen by the analytics.
#[derive(Debug, Clone)]
pub struct GameInfo {
    /// Logical position of the game in the originating stream, 0-based.
    pub game_index: usize,
    /// The aligned (move, remaining-clock-time) sequence.
    pub timed_moves: Vec<TimedMove>,
    /// `"white"` or `"black"`.
    pub user_color: String,
    pub user_rating: i32,
    pub opponent_rating: i32,
    pub opponent_username: String,
    /// `None` means the game was a draw.
    pub winner_color: Option<String>,
    /// Free-form status token; `"outoftime"` marks a clock expiration.
    pub game_status: String,
}

impl GameInfo {
    /// Clock samples are remaining times and therefore never negative.
    pub open spec fn wf(&self) -> bool {
        forall|i: int|
            0 <= i < self.timed_moves@.len() ==> self.timed_moves@[i].move_time >= 0
    }
}

/// Index of the first space character of `s` at or after position `i`, or
/// `s.len()` if there is none.
pub open spec fn first_space_from(s: Seq<char>, i: int) -> int
    decreases s.len() - i,
{
    if i < 0 || i >= s.len() {
        s.len() as int
    } else if s[i] == ' ' {
        i
    } else {
        first_space_from(s, i + 1)
    }
}

pub proof fn lemma_first_space_from(s: Seq<char>, i: int)
    requires
        0 <= i <= s.len(),
    ensures
        i <= first_space_from(s, i) <= s.len(),
        forall|j: int| i <= j < first_space_from(s, i) ==> s[j] != ' ',
        first_space_from(s, i) < s.len() ==> s[first_space_from(s, i)] == ' ',
    decreases s.len() - i,
{
    if i < s.len() && s[i] != ' ' {
        lemma_first_space_from(s, i + 1);
    }
}

/// The token list of `s`, split at every single space character, empty
/// tokens preserved: `"a  b"` has three tokens and `""` has one.
pub open spec fn split_at_spaces(s: Seq<char>) -> Seq<Seq<char>>
    decreases s.len(),
{
    let k = first_space_from(s, 0);
    if 0 <= k < s.len() {
        seq![s.subrange(0, k)] + split_at_spaces(s.subrange(k + 1, s.len() as int))
    } else {
        seq![s]
    }
}

proof fn lemma_split_with_space(s: Seq<char>, k: int)
    requires
        0 <= k < s.len(),
        s[k] == ' ',
        forall|j: int| 0 <= j < k ==> s[j] != ' ',
    ensures
        split_at_spaces(s) == seq![s.subrange(0, k)] + split_at_spaces(
            s.subrange(k + 1, s.len() as int),
        ),
{
    lemma_first_space_from(s, 0);
    let f = first_space_from(s, 0);
    if f < k {
        assert(s[f] == ' ');
    }
    if f > k {
        assert(s[k] != ' ');
    }
    assert(f == k);
}

proof fn lemma_split_no_space(s: Seq<char>)
    requires
        forall|j: int| 0 <= j < s.len() ==> s[j] != ' ',
    ensures
        split_at_spaces(s) == seq![s],
{
    lemma_first_space_from(s, 0);
    let f = first_space_from(s, 0);
    if f < s.len() {
        assert(s[f] == ' ');
    }
}

/// Splits a move-list string at every space, exactly as `split_at_spaces`
/// describes.
pub fn split_move_list(s: &str) -> (tokens: Vec<String>)
    ensures
        tokens@.map_values(|t: String| t@) == split_at_spaces(s@),
{
    let n = s.unicode_len();
    let mut tokens: Vec<String> = Vec::new();
    let mut start: usize = 0;
    let mut i: usize = 0;
    proof {
        assert(s@.subrange(0, n as int) =~= s@);
        assert(tokens@.map_values(|t: String| t@) + split_at_spaces(s@) =~~= split_at_spaces(
            s@,
        ));
    }
    while i < n
        invariant
            start <= i <= n,
            n == s@.len(),
            forall|j: int| start <= j < i ==> s@[j] != ' ',
            split_at_spaces(s@) =~~= tokens@.map_values(|t: String| t@) + split_at_spaces(
                s@.subrange(start as int, n as int),
            ),
        decreases n - i,
    {
        if s.get_char(i) == ' ' {
            let token = s.substring_char(start, i);
            let ghost prev = tokens@;
            tokens.push(token.to_owned());
            proof {
                let u = s@.subrange(start as int, n as int);
                lemma_split_with_space(u, i - start);
                assert(u.subrange(0, i - start) =~= s@.subrange(start as int, i as int));
                assert(u.subrange(i - start + 1, u.len() as int) =~= s@.subrange(
                    i + 1,
                    n as int,
                ));
                assert(tokens@.map_values(|t: String| t@) =~= prev.map_values(
                    |t: String| t@,
                ).push(token@));
            }
            start = i + 1;
        }
        i = i + 1;
    }
    let token = s.substring_char(start, n);
    let ghost prev = tokens@;
    tokens.push(token.to_owned());
    proof {
        let u = s@.subrange(start as int, n as int);
        lemma_split_no_space(u);
        assert(tokens@.map_values(|t: String| t@) =~= prev.map_values(|t: String| t@).push(
            token@,
        ));
        assert(tokens@.map_values(|t: String| t@) =~~= split_at_spaces(s@));
    }
    tokens
}

/// `timed_moves` pairs the move tokens of `game` with its clock samples,
/// position by position; a clock sample without a matching move (the one
/// taken after the game-ending move) is dropped.
pub open spec fn timed_moves_match(timed_moves: Seq<TimedMove>, game: GameJson) -> bool {
    let tokens = split_at_spaces(game.moves.unwrap()@);
    let clocks = game.clocks.unwrap()@;
    &&& timed_moves.len() == tokens.len()
    &&& forall|i: int|
        0 <= i < tokens.len() ==> (#[trigger] timed_moves[i]).move_key@ == tokens[i]
            && timed_moves[i].move_time == clocks[i]
}

/// Aligns the move list of `game` with its clock-sample list.
pub fn generate_timed_moves(game: &GameJson) -> (timed_moves: Vec<TimedMove>)
    requires
        game.moves is Some,
        game.clocks is Some,
        game.clocks.unwrap()@.len() >= split_at_spaces(game.moves.unwrap()@).len(),
    ensures
        timed_moves_match(timed_moves@, *game),
{
    let moves_string: &String = game.moves.as_ref().unwrap();
    let clocks: &Vec<i64> = game.clocks.as_ref().unwrap();
    let tokens = split_move_list(moves_string.as_str());
    let ghost token_views = split_at_spaces(game.moves.unwrap()@);
    let mut timed_moves: Vec<TimedMove> = Vec::new();
    let mut i: usize = 0;
    while i < tokens.len()
        invariant
            i <= tokens@.len(),
            tokens@.map_values(|t: String| t@) == token_views,
            clocks@.len() >= tokens@.len(),
            timed_moves@.len() == i,
            forall|j: int|
                0 <= j < i ==> (#[trigger] timed_moves@[j]).move_key@ == token_views[j]
                    && timed_moves@[j].move_time == clocks@[j],
        decreases tokens@.len() - i,
    {
        timed_moves.push(TimedMove { move_key: tokens[i].clone(), move_time: clocks[i] });
        i = i + 1;
    }
    timed_moves
}

/// The black side carries an identity whose name case-insensitively equals
/// `user_name`.
pub open spec fn spec_black_name_matches(game: GameJson, user_name: Seq<char>) -> bool {
    &&& game.players is Some
    &&& game.players.unwrap().black is Some
    &&& game.players.unwrap().black.unwrap().user is Some
    &&& game.players.unwrap().black.unwrap().user.unwrap().name is Some
    &&& lower_of(game.players.unwrap().black.unwrap().user.unwrap().name.unwrap()@)
        == lower_of(user_name)
}

/// The color the user played: `"black"` when the black side's identity
/// matches `user_name`, otherwise `"white"` (also when identity is absent).
pub open spec fn spec_user_color(game: GameJson, user_name: Seq<char>) -> Seq<char> {
    if spec_black_name_matches(game, user_name) {
        "black"@
    } else {
        "white"@
    }
}

/// The color opposite `user_color`.
pub open spec fn spec_opponent_color(user_color: Seq<char>) -> Seq<char> {
    if user_color == "black"@ {
        "white"@
    } else {
        "black"@
    }
}

pub fn get_user_color(game: &GameJson, user_name: &str) -> (color: String)
    requires
        (game.players is Some && game.players.unwrap().black is Some
            && game.players.unwrap().black.unwrap().user is Some)
            ==> game.players.unwrap().black.unwrap().user.unwrap().name is Some,
    ensures
        color@ == spec_user_color(*game, user_name@),
{
    if let Some(players) = game.players.as_ref() {
        if let Some(black_player) = players.black.as_ref() {
            if let Some(user) = black_player.user.as_ref() {
                let folded_name = lowercase(user.name.as_ref().unwrap().as_str());
                let folded_user_name = lowercase(user_name);
                if str_eq(folded_name.as_str(), folded_user_name.as_str()) {
                    return "black".to_owned();
                }
            }
        }
    }
    "white".to_owned()
}

/// The player details of the side of the given color.
pub open spec fn spec_side_detail(game: GameJson, color: Seq<char>) -> Option<PlayerDetail>
    recommends
        game.players is Some,
{
    if color == "black"@ {
        game.players.unwrap().black
    } else {
        game.players.unwrap().white
    }
}

/// The rating of the side of the given color; 0 when players or the rating
/// are absent.
pub open spec fn spec_side_rating(game: GameJson, color: Seq<char>) -> int {
    if game.players is None {
        0
    } else if spec_side_detail(game, color).unwrap().rating is Some {
        spec_side_detail(game, color).unwrap().rating.unwrap() as int
    } else {
        0
    }
}

pub fn get_user_rating(game: &GameJson, user_color: &str) -> (rating: i32)
    requires
        game.players is Some ==> spec_side_detail(*game, user_color@) is Some,
    ensures
        rating as int == spec_side_rating(*game, user_color@),
{
    let players = match game.players.as_ref() {
        Some(players) => players,
        None => {
            return 0;
        },
    };
    let player_detail = if str_eq(user_color, "black") {
        &players.black
    } else {
        &players.white
    };
    player_detail.as_ref().unwrap().rating.unwrap_or(0)
}

/// The username of the side of the given color; empty when players are
/// absent.
pub open spec fn spec_side_username(game: GameJson, color: Seq<char>) -> Seq<char> {
    if game.players is None {
        Seq::empty()
    } else {
        spec_side_detail(game, color).unwrap().user.unwrap().name.unwrap()@
    }
}

/// The side of the given color, when present, carries a full identity.
pub open spec fn spec_side_identified(game: GameJson, color: Seq<char>) -> bool {
    game.players is Some ==> {
        &&& spec_side_detail(game, color) is Some
        &&& spec_side_detail(game, color).unwrap().user is Some
        &&& spec_side_detail(game, color).unwrap().user.unwrap().name is Some
    }
}

pub fn get_opponent_username(game: &GameJson, opponent_color: &str) -> (name: String)
    requires
        spec_side_identified(*game, opponent_color@),
    ensures
        name@ == spec_side_username(*game, opponent_color@),
{
    let players = match game.players.as_ref() {
        Some(players) => players,
        None => {
            return String::new();
        },
    };
    let player_detail = if str_eq(opponent_color, "black") {
        &players.black
    } else {
        &players.white
    };
    player_detail.as_ref().unwrap().user.as_ref().unwrap().name.as_ref().unwrap().clone()
}

pub fn get_game_status(game: &GameJson) -> (status: String)
    requires
        game.status is Some,
    ensures
        status@ == game.status.unwrap()@,
{
    game.status.as_ref().unwrap().clone()
}

pub fn get_winner_color(game: &GameJson) -> (winner: Option<String>)
    ensures
        winner is Some <==> game.winner is Some,
        winner is Some ==> winner.unwrap()@ == game.winner.unwrap()@,
{
    match game.winner.as_ref() {
        Some(color) => Some(color.clone()),
        None => None,
    }
}

/// One side of a players block carries a named identity.
pub open spec fn spec_side_complete(side: Option<PlayerDetail>) -> bool {
    &&& side is Some
    &&& side.unwrap().user is Some
    &&& side.unwrap().user.unwrap().name is Some
}

/// The record carries everything normalization reads: a move list, clock
/// samples covering every move, a status token, and — whenever a players
/// block is present at all — a full identity for both sides.
pub open spec fn record_normalizable(game: GameJson) -> bool {
    &&& game.moves is Some
    &&& game.clocks is Some
    &&& game.clocks.unwrap()@.len() >= split_at_spaces(game.moves.unwrap()@).len()
    &&& game.status is Some
    &&& game.players is Some ==> (spec_side_complete(game.players.unwrap().black)
        && spec_side_complete(game.players.unwrap().white))
}

/// Normalizes one raw record into a `GameInfo` carrying the given stream
/// index.
pub fn generate(game: &GameJson, game_idx: &usize, user_name: &String) -> (info: GameInfo)
    requires
        record_normalizable(*game),
    ensures
        info.game_index == *game_idx,
        timed_moves_match(info.timed_moves@, *game),
        info.user_color@ == spec_user_color(*game, user_name@),
        info.user_rating as int == spec_side_rating(*game, spec_user_color(*game, user_name@)),
        info.opponent_rating as int == spec_side_rating(
            *game,
            spec_opponent_color(spec_user_color(*game, user_name@)),
        ),
        info.opponent_username@ == spec_side_username(
            *game,
            spec_opponent_color(spec_user_color(*game, user_name@)),
        ),
        info.winner_color is Some <==> game.winner is Some,
        info.winner_color is Some ==> info.winner_color.unwrap()@ == game.winner.unwrap()@,
        info.game_status@ == game.status.unwrap()@,
{
    let user_color = get_user_color(game, user_name.as_str());
    let user_rating = get_user_rating(game, user_color.as_str());
    let opponent_color: &str = if str_eq(user_color.as_str(), "black") {
        "white"
    } else {
        "black"
    };
    let opponent_rating = get_user_rating(game, opponent_color);

    GameInfo {
        game_index: *game_idx,
        timed_moves: generate_timed_moves(game),
        user_color,
        user_rating,
        opponent_rating,
        opponent_username: get_opponent_username(game, opponent_color),
        winner_color: get_winner_color(game),
        game_status: get_game_status(game),
    }
}

/// Some entry of `pairs` carries this username (by characters) and rating.
pub open spec fn opponent_listed(pairs: Seq<(String, i32)>, name: Seq<char>, rating: int) -> bool {
    exists|i: int|
        0 <= i < pairs.len() && (#[trigger] pairs[i]).0@ == name && pairs[i].1 as int == rating
}

/// `pair` names the opponent of one of the first `upto` games.
pub open spec fn pair_from_games(games: Seq<GameInfo>, upto: int, pair: (String, i32)) -> bool {
    exists|k: int|
        0 <= k < upto && pair.0@ == (#[trigger] games[k]).opponent_username@ && pair.1
            == games[k].opponent_rating
}

/// No two entries carry the same (username, rating) combination.
pub open spec fn distinct_opponent_pairs(pairs: Seq<(String, i32)>) -> bool {
    forall|i: int, j: int|
        0 <= i < j < pairs.len() ==> !((#[trigger] pairs[i]).0@ == (#[trigger] pairs[j]).0@
            && pairs[i].1 == pairs[j].1)
}

proof fn lemma_opponent_listed_push(
    pairs: Seq<(String, i32)>,
    x: (String, i32),
    name: Seq<char>,
    rating: int,
)
    requires
        opponent_listed(pairs, name, rating),
    ensures
        opponent_listed(pairs.push(x), name, rating),
{
    let i = choose|i: int|
        0 <= i < pairs.len() && (#[trigger] pairs[i]).0@ == name && pairs[i].1 as int == rating;
    assert((pairs.push(x)[i]).0@ == name);
}

proof fn lemma_pair_from_games_mono(games: Seq<GameInfo>, upto1: int, upto2: int, pair: (String, i32))
    requires
        pair_from_games(games, upto1, pair),
        upto1 <= upto2,
    ensures
        pair_from_games(games, upto2, pair),
{
    let k = choose|k: int|
        0 <= k < upto1 && pair.0@ == (#[trigger] games[k]).opponent_username@ && pair.1
            == games[k].opponent_rating;
    assert(pair.0@ == games[k].opponent_username@);
}

/// Membership test used while deduplicating opponent entries.
fn contains_opponent_pair(pairs: &Vec<(String, i32)>, name: &String, rating: i32) -> (found:
    bool)
    ensures
        found <==> opponent_listed(pairs@, name@, rating as int),
{
    let mut i: usize = 0;
    while i < pairs.len()
        invariant
            i <= pairs@.len(),
            forall|j: int|
                0 <= j < i ==> !((#[trigger] pairs@[j]).0@ == name@ && pairs@[j].1 == rating),
        decreases pairs@.len() - i,
    {
        if str_eq(pairs[i].0.as_str(), name.as_str()) && pairs[i].1 == rating {
            return true;
        }
        i = i + 1;
    }
    false
}

/// The distinct (opponent username, opponent rating) pairs appearing among
/// the considered games, first occurrence first.
pub fn get_opponents_and_their_rating(games_considered: &Vec<GameInfo>) -> (opponents: Vec<
    (String, i32),
>)
    ensures
        distinct_opponent_pairs(opponents@),
        forall|i: int|
            0 <= i < opponents@.len() ==> pair_from_games(
                games_considered@,
                games_considered@.len() as int,
                #[trigger] opponents@[i],
            ),
        forall|k: int|
            0 <= k < games_considered@.len() ==> opponent_listed(
                opponents@,
                (#[trigger] games_considered@[k]).opponent_username@,
                games_considered@[k].opponent_rating as int,
            ),
{
    let mut opponents: Vec<(String, i32)> = Vec::new();
    let mut g: usize = 0;
    while g < games_considered.len()
        invariant
            g <= games_considered@.len(),
            distinct_opponent_pairs(opponents@),
            forall|i: int|
                0 <= i < opponents@.len() ==> pair_from_games(
                    games_considered@,
                    g as int,
                    #[trigger] opponents@[i],
                ),
            forall|k: int|
                0 <= k < g ==> opponent_listed(
                    opponents@,
                    (#[trigger] games_considered@[k]).opponent_username@,
                    games_considered@[k].opponent_rating as int,
                ),
        decreases games_considered@.len() - g,
    {
        let game = &games_considered[g];
        let already = contains_opponent_pair(
            &opponents,
            &game.opponent_username,
            game.opponent_rating,
        );
        let ghost prev = opponents@;
        if !already {
            opponents.push((game.opponent_username.clone(), game.opponent_rating));
        }
        proof {
            let gi = g as int;
            let games = games_considered@;
            if !already {
                let x = opponents@[prev.len() as int];
                assert(x.0@ == games[gi].opponent_username@);
                assert(opponent_listed(opponents@, games[gi].opponent_username@,
                    games[gi].opponent_rating as int));
                assert(pair_from_games(games, gi + 1, x));
                assert forall|k: int| 0 <= k < gi implies opponent_listed(
                    opponents@,
                    (#[trigger] games[k]).opponent_username@,
                    games[k].opponent_rating as int,
                ) by {
                    lemma_opponent_listed_push(prev, x, games[k].opponent_username@,
                        games[k].opponent_rating as int);
                }
                assert forall|i: int, j: int| 0 <= i < j < opponents@.len() implies !((
                #[trigger] opponents@[i]).0@ == (#[trigger] opponents@[j]).0@ && opponents@[i].1
                    == opponents@[j].1) by {
                    if j == prev.len() as int {
                        assert(!opponent_listed(prev, x.0@, x.1 as int));
                        assert(!(prev[i].0@ == x.0@ && prev[i].1 as int == x.1 as int));
                    }
                }
            } else {
                assert(opponent_listed(opponents@, games[gi].opponent_username@,
                    games[gi].opponent_rating as int));
            }
            assert forall|i: int| 0 <= i < opponents@.len() implies pair_from_games(
                games,
                gi + 1,
                #[trigger] opponents@[i],
            ) by {
                if i < prev.len() {
                    lemma_pair_from_games_mono(games, gi, gi + 1, opponents@[i]);
                }
            }
        }
        g = g + 1;
    }
    opponents
}

} // verus!
