//! Weather crawler: resolves a place to coordinates, fetches the current
//! weather there on every scrape and republishes each reading as a gauge.
//!
//! The library holds the verified part of that pipeline: the schema that maps
//! weather fields to gauge names, the request URLs, the choice of a location
//! among geocoding candidates, the gauge set and the scrape decisions.
//! Network access, JSON decoding and the text encoding of float gauges are
//! done by the program around it.

pub mod gauges;
pub mod geo;
pub mod laws;
pub mod reading;
pub mod schema;
pub mod scrape;

pub use gauges::{register_metrics, GaugeLine, GaugeSet};
pub use geo::{geolocation_url, select_location, GeoData, ResolveError};
pub use reading::{
    DailyData, DailyUnitsData, HourlyData, HourlyUnitsData, MeteoData, Sample, WeatherData,
    WeatherUnitsData,
};
pub use schema::{gauge_descriptors, requested_fields, weather_url, FIELD_COUNT, GAUGE_COUNT};
pub use scrape::{AppState, Args, FetchError};
