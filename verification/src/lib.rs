//! Analytics over batches of completed chess games.
//!
//! The crate ingests raw game records, classifies each one as usable or
//! skip-worthy, and reduces the usable games to a handful of statistics:
//! a mid-game time-usage differential per game, the batch average, a win
//! rate, per-side flag (clock-expiration) counts, and an ordered trend
//! series for charting. All transport concerns (HTTP, sockets, storage)
//! live outside this crate; the functions here are pure over plain values.

pub mod service_intermediary;
pub mod util;
pub mod deserialization;
pub mod games_info_generator;
pub mod games_info_processor;
pub mod trend_chart_generator;
pub mod errors_manager;
pub mod insight_generator;
pub mod lichess_client;
pub mod unit_test_util;
