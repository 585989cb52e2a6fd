use vstd::prelude::*;
use crate::gauges::{exposition_of, line_view, GaugeLine};
use crate::reading::{gauge_values_of, MeteoData, Sample};
use crate::schema::{gauge_table, GAUGE_COUNT};
use crate::scrape::{scrape_effect, AppState, FetchError};

verus! {

/// After a successful scrape the published lines are exactly one per entry of
/// the gauge table, in table order, each carrying the name and help text of
/// its entry and the unchanged value of the field that feeds it.
pub proof fn lemma_scrape_publishes_every_field(values: Seq<Sample>, m: MeteoData)
    ensures
        exposition_of(scrape_effect(values, Ok(m))).len() == GAUGE_COUNT,
        gauge_table().len() == GAUGE_COUNT,
        forall|i: int|
            0 <= i < GAUGE_COUNT ==> #[trigger] exposition_of(scrape_effect(values, Ok(m)))[i] == (
                gauge_table()[i].0,
                gauge_table()[i].1,
                gauge_values_of(m)[i],
            ),
{
}

/// Rendering is a pure read of the gauges: two renderings of the same state
/// publish the same lines.
pub proof fn lemma_render_idempotent(state: AppState, first: Seq<GaugeLine>, second: Seq<GaugeLine>)
    requires
        first.map_values(|l: GaugeLine| line_view(l)) == exposition_of(state.gauge_state()),
        second.map_values(|l: GaugeLine| line_view(l)) == exposition_of(state.gauge_state()),
    ensures
        first.map_values(|l: GaugeLine| line_view(l)) == second.map_values(
            |l: GaugeLine| line_view(l),
        ),
{
}

/// Two successful scrapes in a row leave every gauge holding the second
/// answer's value, whatever the first one held.
pub proof fn lemma_last_scrape_wins(values: Seq<Sample>, first: MeteoData, second: MeteoData)
    ensures
        scrape_effect(scrape_effect(values, Ok(first)), Ok(second)) == gauge_values_of(second),
{
}

/// A failed scrape sets no gauge: none is zeroed, none is dropped.
pub proof fn lemma_failed_scrape_keeps_gauges(values: Seq<Sample>, e: FetchError)
    ensures
        scrape_effect(values, Err(e)) == values,
{
}

} // verus!
