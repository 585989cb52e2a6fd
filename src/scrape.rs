use vstd::prelude::*;
use crate::gauges::{
    exposition_of, initial_gauges, line_view, register_metrics, GaugeLine, GaugeSet,
};
use crate::geo::{select_location, GeoData, ResolveError};
use crate::reading::{gauge_values_of, MeteoData, Sample};
use crate::schema::{gauge_table, weather_url, weather_url_of, GAUGE_COUNT};

verus! {

/// Why a forecast answer could not be had.
#[derive(Clone, Copy, Debug, PartialEq, Eq, Structural)]
pub enum FetchError {
    /// The request failed or the service answered with an error status.
    Transport,
    /// The body was not a forecast answer: a field of the schema was missing
    /// or had another type.
    Decode,
}

/// The command-line arguments: the place to watch.
pub struct Args {
    pub city: String,
}

/// What the gauges hold after a scrape whose fetch ended in `fetched`: every
/// gauge overwritten on success, nothing touched on failure.
pub open spec fn scrape_effect(
    values: Seq<Sample>,
    fetched: Result<MeteoData, FetchError>,
) -> Seq<Sample> {
    match fetched {
        Ok(m) => gauge_values_of(m),
        Err(_) => values,
    }
}

/// The state shared by every scrape: the location resolved once at startup
/// and the registered gauges.
pub struct AppState {
    location: GeoData,
    gauges: GaugeSet,
}

impl AppState {
    /// Latitude and longitude of the watched location.
    pub closed spec fn coordinates(&self) -> (Seq<char>, Seq<char>) {
        (self.location.lat@, self.location.lon@)
    }

    /// The value of every gauge, in gauge-table order.
    pub closed spec fn gauge_state(&self) -> Seq<Sample> {
        self.gauges@
    }

    /// Startup: takes the first geocoding candidate as the location, or fails
    /// when there is none, and registers every gauge.
    pub fn bootstrap(candidates: &Vec<GeoData>) -> (r: Result<AppState, ResolveError>)
        ensures
            candidates@.len() == 0 <==> r is Err,
            r is Err ==> r == Err::<AppState, ResolveError>(ResolveError::NoCandidates),
            r is Ok ==> r->Ok_0.coordinates() == (candidates@[0].lat@, candidates@[0].lon@),
            r is Ok ==> r->Ok_0.gauge_state() == initial_gauges(),
    {
        match select_location(candidates) {
            Ok(location) => Ok(AppState { location, gauges: register_metrics() }),
            Err(e) => Err(e),
        }
    }

    /// The watched location.
    pub fn location(&self) -> (r: &GeoData)
        ensures
            (r.lat@, r.lon@) == self.coordinates(),
    {
        &self.location
    }

    /// The forecast request for the watched location.
    pub fn weather_request(&self) -> (r: String)
        ensures
            r@ == weather_url_of(self.coordinates().0, self.coordinates().1),
    {
        weather_url(self.location.lat.as_str(), self.location.lon.as_str())
    }

    /// The lines that the gauges publish now; no gauge changes.
    pub fn render(&self) -> (r: Vec<GaugeLine>)
        ensures
            r@.map_values(|l: GaugeLine| line_view(l)) == exposition_of(self.gauge_state()),
    {
        self.gauges.render()
    }

    /// Ends a scrape with the outcome of its fetch. On success every gauge
    /// is overwritten and the new lines are returned; on failure the error is
    /// returned and no gauge changes. The location never changes.
    pub fn complete_scrape(&mut self, fetched: Result<MeteoData, FetchError>) -> (r: Result<
        Vec<GaugeLine>,
        FetchError,
    >)
        ensures
            final(self).coordinates() == old(self).coordinates(),
            final(self).gauge_state() == scrape_effect(old(self).gauge_state(), fetched),
            fetched is Ok <==> r is Ok,
            fetched is Err ==> r == Err::<Vec<GaugeLine>, FetchError>(fetched->Err_0),
            r is Ok ==> r->Ok_0@.map_values(|l: GaugeLine| line_view(l)) == exposition_of(
                final(self).gauge_state(),
            ),
    {
        match fetched {
            Ok(m) => {
                self.gauges.record(&m);
                Ok(self.gauges.render())
            },
            Err(e) => Err(e),
        }
    }
}

} // verus!
