//! The shape of the insights panel shown beside the chart.

use vstd::prelude::*;

use crate::service_intermediary::DescriptionMessageAssessment;

verus! {

/// The rendered insights for one batch: the average as display text, the
/// explanation sentence with its tone, and the win ratio as display
/// text. Rendering the numbers into these strings is the presentation
/// layer's job; the exact values they come from are produced by the
/// analytics.
pub struct InsightsPanelProps {
    pub average_time: String,
    pub explanation_message: (String, DescriptionMessageAssessment),
    pub win_ratio: String,
}

} // verus!
