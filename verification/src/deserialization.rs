//! The shape of one raw game record, and the user-facing rendering of
//! per-game warnings.
//!
//! Every field of a raw record is optional: the upstream source omits
//! whatever it does not know, and a record that lacks something the
//! analytics need is skipped rather than failing the whole batch.

use vstd::prelude::*;

use std::collections::HashMap;

use crate::service_intermediary::GameFetchWarning;

verus! {

broadcast use vstd::std_specs::hash::group_hash_axioms;

/// Clock configuration of a game: initial time, increment, and the derived
/// total thinking time, all in seconds.
#[derive(Debug, Clone)]
pub struct Clock {
    pub increment: Option<i32>,
    pub initial: Option<i32>,
    pub total_time: Option<i32>,
}

/// Account identity of one player.
#[derive(Debug, Clone)]
pub struct User {
    pub id: Option<String>,
    pub name: Option<String>,
}

/// Rating and identity details for one side of a game.
#[derive(Debug, Clone)]
pub struct PlayerDetail {
    pub rating: Option<i32>,
    pub rating_diff: Option<i32>,
    pub user: Option<User>,
}

/// The two sides of a game.
#[derive(Debug, Clone)]
pub struct Players {
    pub black: Option<PlayerDetail>,
    pub white: Option<PlayerDetail>,
}

/// One raw game record as decoded from the record stream.
///
/// `moves` is a space-delimited token string; `clocks` holds one
/// remaining-time sample per move, in centiseconds, possibly with one
/// trailing sample taken after the game-ending move.
#[derive(Debug, Clone)]
pub struct GameJson {
    pub clock: Option<Clock>,
    pub clocks: Option<Vec<i64>>,
    pub created_at: Option<u64>,
    pub id: Option<String>,
    pub last_move_at: Option<u64>,
    pub moves: Option<String>,
    pub perf: Option<String>,
    pub players: Option<Players>,
    pub rated: Option<bool>,
    pub speed: Option<String>,
    pub status: Option<String>,
    pub variant: Option<String>,
    pub winner: Option<String>,
}

/// The fixed user-facing description of each warning kind.
pub open spec fn spec_warning_description(warning: GameFetchWarning) -> Seq<char> {
    match warning {
        GameFetchWarning::GameHasNotEnoughMoves => "Game does not have enough moves."@,
        GameFetchWarning::InternalErrorOccuredWhileProcessingAGame =>
            "An internal error occured while processing this game."@,
    }
}

pub fn warning_description(warning: &GameFetchWarning) -> (description: String)
    ensures
        description@ == spec_warning_description(*warning),
{
    match warning {
        GameFetchWarning::GameHasNotEnoughMoves => "Game does not have enough moves.".to_owned(),
        GameFetchWarning::InternalErrorOccuredWhileProcessingAGame =>
            "An internal error occured while processing this game.".to_owned(),
    }
}

/// The display rendering of every registered index below `k`, in
/// ascending order: the 1-based index and the description of its warning.
pub open spec fn spec_displayable_upto(m: Map<usize, GameFetchWarning>, k: int) -> Seq<
    (int, Seq<char>),
>
    decreases k,
{
    if k <= 0 {
        Seq::empty()
    } else {
        let rest = spec_displayable_upto(m, k - 1);
        if m.contains_key((k - 1) as usize) {
            rest.push((k, spec_warning_description(m[(k - 1) as usize])))
        } else {
            rest
        }
    }
}

/// Nothing is registered in `[a, b)`, so the rendering up to `b` is the
/// rendering up to `a`.
proof fn lemma_displayable_stable(m: Map<usize, GameFetchWarning>, a: int, b: int)
    requires
        0 <= a <= b <= usize::MAX as int + 1,
        forall|k: usize| #[trigger] m.contains_key(k) ==> k < a,
    ensures
        spec_displayable_upto(m, b) == spec_displayable_upto(m, a),
    decreases b - a,
{
    if a < b {
        lemma_displayable_stable(m, a, b - 1);
        assert(!m.contains_key((b - 1) as usize));
    }
}

/// Renders the skip registry for the caller: one `(display index,
/// description)` pair per registered game, in ascending order, with the
/// indices shifted to be 1-based.
pub fn convert_games_with_errors_to_displayable_format(
    games_with_errors: HashMap<usize, GameFetchWarning>,
) -> (displayable: Vec<(usize, String)>)
    requires
        forall|k: usize| #[trigger] games_with_errors@.contains_key(k) ==> k < usize::MAX,
    ensures
        displayable@.map_values(|p: (usize, String)| (p.0 as int, p.1@))
            == spec_displayable_upto(games_with_errors@, usize::MAX as int),
        forall|i: int, j: int|
            0 <= i < j < displayable@.len() ==> (#[trigger] displayable@[i]).0 < (
            #[trigger] displayable@[j]).0,
        forall|i: int|
            0 <= i < displayable@.len() ==> 1 <= (#[trigger] displayable@[i]).0
                && games_with_errors@.contains_key((displayable@[i].0 - 1) as usize)
                && displayable@[i].1@ == spec_warning_description(
                games_with_errors@[(displayable@[i].0 - 1) as usize],
            ),
        forall|k: usize| #[trigger]
            games_with_errors@.contains_key(k) ==> exists|i: int|
                0 <= i < displayable@.len() && (#[trigger] displayable@[i]).0 as int == k as int
                    + 1,
{
    // Walk the index range upward, shifting each registered index to its
    // 1-based display form, until as many entries were found as the
    // registry holds.
    let total = games_with_errors.len();
    let mut displayable: Vec<(usize, String)> = Vec::new();
    let mut found: usize = 0;
    let mut k: usize = 0;
    proof {
        assert(spec_keys_below(games_with_errors@, 0) =~= Set::empty());
    }
    while found < total
        invariant
            total == games_with_errors@.dom().len(),
            found as int == spec_keys_below(games_with_errors@, k as int).len(),
            displayable@.len() == found,
            displayable@.map_values(|p: (usize, String)| (p.0 as int, p.1@))
                == spec_displayable_upto(games_with_errors@, k as int),
            forall|key: usize| #[trigger] games_with_errors@.contains_key(key) ==> key
                < usize::MAX,
            forall|i: int|
                0 <= i < displayable@.len() ==> 1 <= (#[trigger] displayable@[i]).0
                    && displayable@[i].0 as int <= k as int
                    && games_with_errors@.contains_key((displayable@[i].0 - 1) as usize)
                    && displayable@[i].1@ == spec_warning_description(
                    games_with_errors@[(displayable@[i].0 - 1) as usize],
                ),
            forall|i: int, j: int|
                0 <= i < j < displayable@.len() ==> (#[trigger] displayable@[i]).0 < (
                #[trigger] displayable@[j]).0,
            forall|key: usize|
                games_with_errors@.contains_key(key) && key < k ==> exists|i: int|
                    0 <= i < displayable@.len() && (#[trigger] displayable@[i]).0 as int == key
                        as int + 1,
        decreases usize::MAX - k,
    {
        proof {
            let dom = games_with_errors@.dom();
            let below = spec_keys_below(games_with_errors@, k as int);
            assert(below.subset_of(dom));
            if k == usize::MAX {
                assert(below =~= dom);
                assert(false);
            }
            let below_next = spec_keys_below(games_with_errors@, k as int + 1);
            assert(below_next.subset_of(dom));
            if games_with_errors@.contains_key(k) {
                assert(!below.contains(k));
                assert(below_next =~= below.insert(k));
                vstd::set_lib::lemma_len_subset(below, dom);
                below.lemma_subset_not_in_lt(dom, k);
            } else {
                assert(below_next =~= below);
                vstd::set_lib::lemma_len_subset(below_next, dom);
            }
        }
        let ghost prev = displayable@;
        match games_with_errors.get(&k) {
            Some(warning) => {
                displayable.push((k + 1, warning_description(warning)));
                found = found + 1;
                proof {
                    assert(displayable@.map_values(|p: (usize, String)| (p.0 as int, p.1@))
                        =~~= prev.map_values(|p: (usize, String)| (p.0 as int, p.1@)).push(
                        (k as int + 1, spec_warning_description(games_with_errors@[k])),
                    ));
                    assert(displayable@[prev.len() as int].0 as int == k as int + 1);
                    assert forall|key: usize|
                        games_with_errors@.contains_key(key) && key < k + 1 implies exists|
                        i: int,
                    |
                        0 <= i < displayable@.len() && (#[trigger] displayable@[i]).0 as int
                            == key as int + 1 by {
                        if key < k {
                            let i0 = choose|i: int|
                                0 <= i < prev.len() && (#[trigger] prev[i]).0 as int == key
                                    as int + 1;
                            assert(displayable@[i0].0 as int == key as int + 1);
                        } else {
                            assert(displayable@[prev.len() as int].0 as int == key as int + 1);
                        }
                    }
                }
            },
            None => {
                proof {
                    assert forall|key: usize|
                        games_with_errors@.contains_key(key) && key < k + 1 implies exists|
                        i: int,
                    |
                        0 <= i < displayable@.len() && (#[trigger] displayable@[i]).0 as int
                            == key as int + 1 by {
                        assert(key != k);
                        let i0 = choose|i: int|
                            0 <= i < prev.len() && (#[trigger] prev[i]).0 as int == key as int
                                + 1;
                        assert(displayable@[i0].0 as int == key as int + 1);
                    }
                }
            },
        }
        k = k + 1;
    }
    proof {
        let dom = games_with_errors@.dom();
        let below = spec_keys_below(games_with_errors@, k as int);
        assert(dom.finite());
        assert forall|key: usize| #[trigger]
            games_with_errors@.contains_key(key) implies key < k by {
            if key >= k {
                assert(below.subset_of(dom));
                assert(!below.contains(key));
                below.lemma_subset_not_in_lt(dom, key);
            }
        }
        lemma_displayable_stable(games_with_errors@, k as int, usize::MAX as int);
    }
    displayable
}

/// The registered indices smaller than `k`.
pub open spec fn spec_keys_below(m: Map<usize, GameFetchWarning>, k: int) -> Set<usize> {
    m.dom().filter(|key: usize| key < k)
}

} // verus!
