//! Small shared helpers: string comparison, case folding, and
//! game-outcome predicates.

use vstd::prelude::*;

use std::collections::HashMap;

use crate::games_info_generator::GameInfo;
use crate::service_intermediary::GameFetchWarning;

verus! {

broadcast use vstd::std_specs::hash::group_hash_axioms;

/// The Unicode lowercase form of a character sequence. The mapping is a
/// fixed function of the characters alone; its definition lives in the
/// standard library and is left uninterpreted here.
pub uninterp spec fn lower_of(s: Seq<char>) -> Seq<char>;

/// Relies on `str::to_lowercase`: the result depends on the characters of
/// the input alone, so equal inputs fold to equal outputs.
#[verifier::external_body]
pub fn lowercase(s: &str) -> (r: String)
    ensures
        r@ == lower_of(s@),
{
    s.to_lowercase()
}

/// Character-wise equality of two string slices.
///
/// Rust's own `==` on `&str` carries no specification usable in proofs, so
/// the comparison is spelled out over the character views.
pub fn str_eq(a: &str, b: &str) -> (r: bool)
    ensures
        r <==> a@ == b@,
{
    let a_len = a.unicode_len();
    let b_len = b.unicode_len();
    if a_len != b_len {
        return false;
    }
    let mut i: usize = 0;
    while i < a_len
        invariant
            i <= a_len,
            a_len == a@.len(),
            a_len == b@.len(),
            forall|j: int| 0 <= j < i ==> a@[j] == b@[j],
        decreases a_len - i,
    {
        if a.get_char(i) != b.get_char(i) {
            return false;
        }
        i = i + 1;
    }
    proof {
        assert(a@ =~= b@);
    }
    true
}

/// The warning that UI testing assigns to index `k`: the two kinds
/// alternate.
pub open spec fn spec_dummy_warning(k: usize) -> GameFetchWarning {
    if k % 2 == 0 {
        GameFetchWarning::GameHasNotEnoughMoves
    } else {
        GameFetchWarning::InternalErrorOccuredWhileProcessingAGame
    }
}

/// Fills the first six indices of the registry with alternating warning
/// kinds, for exercising the errors panel; entries already present win.
pub fn generate_dummy_erros_testing(skipped_games: &mut HashMap<usize, GameFetchWarning>)
    ensures
        forall|k: usize| #[trigger]
            final(skipped_games)@.contains_key(k) <==> (old(skipped_games)@.contains_key(k) || k
                < 6),
        forall|k: usize| #[trigger]
            final(skipped_games)@.contains_key(k) ==> final(skipped_games)@[k] == (if old(
                skipped_games,
            )@.contains_key(k) {
                old(skipped_games)@[k]
            } else {
                spec_dummy_warning(k)
            }),
{
    let ghost initial = skipped_games@;
    let mut i: usize = 0;
    while i < 6
        invariant
            i <= 6,
            forall|k: usize| #[trigger]
                skipped_games@.contains_key(k) <==> (initial.contains_key(k) || k < i),
            forall|k: usize| #[trigger]
                skipped_games@.contains_key(k) ==> skipped_games@[k] == (
                if initial.contains_key(k) {
                    initial[k]
                } else {
                    spec_dummy_warning(k)
                }),
        decreases 6 - i,
    {
        if !skipped_games.contains_key(&i) {
            if i % 2 == 0 {
                skipped_games.insert(i, GameFetchWarning::GameHasNotEnoughMoves);
            } else {
                skipped_games.insert(i, GameFetchWarning::InternalErrorOccuredWhileProcessingAGame);
            }
        }
        i = i + 1;
    }
}

/// A game is a draw exactly when no winner was recorded.
pub open spec fn spec_is_game_draw(game: GameInfo) -> bool {
    game.winner_color is None
}

pub fn is_game_draw(game: &GameInfo) -> (r: bool)
    ensures
        r == spec_is_game_draw(*game),
{
    game.winner_color.is_none()
}

/// The user won exactly when a winner was recorded and its color token
/// equals the user's color.
pub open spec fn spec_has_user_won_game(game: GameInfo) -> bool {
    game.winner_color is Some && game.winner_color.unwrap()@ == game.user_color@
}

pub fn has_user_won_game(game: &GameInfo) -> (r: bool)
    ensures
        r == spec_has_user_won_game(*game),
{
    match game.winner_color.as_ref() {
        Some(winner) => str_eq(winner.as_str(), game.user_color.as_str()),
        None => false,
    }
}

/// Who flagged whom in a decided game: `None` for draws and for games that
/// did not end by clock expiration, otherwise `Some(user_won)`, since the
/// flag is attributed to the winner.
pub open spec fn spec_game_flagging(game: GameInfo) -> Option<bool> {
    if spec_is_game_draw(game) {
        None
    } else if game.game_status@ == "outoftime"@ {
        Some(spec_has_user_won_game(game))
    } else {
        None
    }
}

pub fn get_game_flagging_information(game: &GameInfo) -> (r: Option<bool>)
    requires
        game.timed_moves@.len() >= 3,
    ensures
        r == spec_game_flagging(*game),
{
    if is_game_draw(game) {
        return None;
    }
    if str_eq(game.game_status.as_str(), "outoftime") {
        return Some(has_user_won_game(game));
    }
    None
}

} // verus!
