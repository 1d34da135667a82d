//! Request- and response-side data types shared by the whole pipeline.

use vstd::prelude::*;

verus! {

/// Tone of the explanation message shown beside the computed average.
#[derive(Debug, PartialEq, Eq, Structural, Clone, Copy)]
pub enum DescriptionMessageAssessment {
    Positive,
    Neutral,
    Negative,
}

/// Why a game was excluded from the analytics.
///
/// At most one warning is recorded per game index, and the first
/// classification wins.
#[derive(Debug, PartialEq, Eq, Structural, Clone, Copy, Hash)]
pub enum GameFetchWarning {
    InternalErrorOccuredWhileProcessingAGame,
    GameHasNotEnoughMoves,
}

/// Fatal conditions that abort a whole fetch, as opposed to per-game skips.
#[derive(Debug, PartialEq, Eq, Structural, Clone, Copy)]
pub enum GlobalFetchError {
    RequestedMoreGamesThanAvailableInTheUserDatabase,
    NotEnoughGamesToComputeAverage,
}

/// One incoming request for a batch of games.
#[derive(Debug, Clone)]
pub struct ChessDataRequest {
    pub username: String,
    pub games_count: i32,
    pub game_mode: String,
    pub user_color: String,
    pub user_elo: Option<i32>,
}

/// Who issued a request: the frontend client or an internal caller.
#[derive(Debug, PartialEq, Eq, Structural, Clone, Copy)]
pub enum RequestSource {
    Frontend,
    Internal,
}

impl RequestSource {
    /// Classifies the `x-requested-by` header value; anything but a literal
    /// `"internal"` falls back to `Frontend`.
    pub fn from_str(requested_by: Option<&str>) -> (source: Self)
        ensures
            source == RequestSource::Internal <==> (requested_by matches Some(s)
                && s@ == "internal"@),
            source == RequestSource::Frontend || source == RequestSource::Internal,
    {
        match requested_by {
            Some(value) => {
                if crate::util::str_eq(value, "internal") {
                    RequestSource::Internal
                } else {
                    RequestSource::Frontend
                }
            },
            None => RequestSource::Frontend,
        }
    }
}

} // verus!
