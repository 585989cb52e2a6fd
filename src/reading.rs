use vstd::prelude::*;

verus! {

/// The value a gauge is fed with, in the type the forecast service sends it.
/// A single-precision number is held as its IEEE 754 bit pattern; the
/// publisher widens it to double precision, which is exact.
#[derive(Clone, Copy, Debug, PartialEq, Eq, Structural)]
pub enum Sample {
    /// A single-precision float, as the bits of `f32::to_bits`.
    Single(u32),
    /// A small unsigned integer (a day/night flag, a weather code).
    Small(u8),
}

/// The unit of each current-weather field, as the service names it.
pub struct WeatherUnitsData {
    pub time: String,
    pub temperature_2m: String,
    pub relativehumidity_2m: String,
    pub apparent_temperature: String,
    pub is_day: String,
    pub precipitation: String,
    pub rain: String,
    pub showers: String,
    pub snowfall: String,
    pub weathercode: String,
    pub cloudcover: String,
    pub pressure_msl: String,
    pub surface_pressure: String,
    pub windspeed_10m: String,
    pub winddirection_10m: String,
    pub windgusts_10m: String,
    pub uv_index: String,
    pub uv_index_clear_sky: String,
    pub cape: String,
    pub freezinglevel_height: String,
    pub shortwave_radiation: String,
    pub direct_radiation: String,
    pub diffuse_radiation: String,
    pub direct_normal_irradiance: String,
    pub terrestrial_radiation: String,
    pub shortwave_radiation_instant: String,
    pub direct_radiation_instant: String,
    pub diffuse_radiation_instant: String,
    pub direct_normal_irradiance_instant: String,
    pub terrestrial_radiation_instant: String,
}

/// The current-weather fields of one forecast answer. Single-precision
/// fields are held as their bit patterns (see `Sample::Single`).
pub struct WeatherData {
    pub time: u32,
    pub temperature_2m: u32,
    pub relativehumidity_2m: u32,
    pub apparent_temperature: u32,
    pub is_day: u8,
    pub precipitation: u32,
    pub rain: u32,
    pub showers: u32,
    pub snowfall: u32,
    pub weathercode: u8,
    pub cloudcover: u32,
    pub pressure_msl: u32,
    pub surface_pressure: u32,
    pub windspeed_10m: u32,
    pub winddirection_10m: u32,
    pub windgusts_10m: u32,
    pub uv_index: u32,
    pub uv_index_clear_sky: u32,
    pub cape: u32,
    pub freezinglevel_height: u32,
    pub shortwave_radiation: u32,
    pub direct_radiation: u32,
    pub diffuse_radiation: u32,
    pub direct_normal_irradiance: u32,
    pub terrestrial_radiation: u32,
    pub shortwave_radiation_instant: u32,
    pub direct_radiation_instant: u32,
    pub diffuse_radiation_instant: u32,
    pub direct_normal_irradiance_instant: u32,
    pub terrestrial_radiation_instant: u32,
}

/// Units of the hourly series; no hourly field is requested.
pub struct HourlyUnitsData {}

/// An hourly series; single-precision values are held as bit patterns.
pub struct HourlyData {
    pub time: Vec<String>,
    pub temperature_2m: Vec<u32>,
    pub relativehumidity_2m: Vec<u32>,
}

/// Units of the daily series; no daily field is requested.
pub struct DailyUnitsData {}

/// A daily series; no daily field is requested.
pub struct DailyData {}

/// One forecast answer: the location metadata and the current weather.
/// Single-precision fields are held as their bit patterns.
pub struct MeteoData {
    pub latitude: u32,
    pub longitude: u32,
    pub generationtime_ms: u32,
    pub utc_offset_seconds: u32,
    pub timezone: String,
    pub timezone_abbreviation: String,
    pub elevation: u32,
    pub current_units: WeatherUnitsData,
    pub current: WeatherData,
}

/// The value of every gauge that a forecast answer gives, in the order of
/// the gauge table: each gauge takes its source field unchanged.
pub open spec fn gauge_values_of(m: MeteoData) -> Seq<Sample> {
    seq![
        Sample::Single(m.latitude),
        Sample::Single(m.longitude),
        Sample::Single(m.elevation),
        Sample::Single(m.generationtime_ms),
        Sample::Single(m.current.temperature_2m),
        Sample::Single(m.current.relativehumidity_2m),
        Sample::Single(m.current.apparent_temperature),
        Sample::Small(m.current.is_day),
        Sample::Single(m.current.precipitation),
        Sample::Single(m.current.rain),
        Sample::Single(m.current.showers),
        Sample::Single(m.current.snowfall),
        Sample::Small(m.current.weathercode),
        Sample::Single(m.current.cloudcover),
        Sample::Single(m.current.pressure_msl),
        Sample::Single(m.current.surface_pressure),
        Sample::Single(m.current.windspeed_10m),
        Sample::Single(m.current.winddirection_10m),
        Sample::Single(m.current.windgusts_10m),
        Sample::Single(m.current.uv_index),
        Sample::Single(m.current.uv_index_clear_sky),
        Sample::Single(m.current.cape),
        Sample::Single(m.current.freezinglevel_height),
        Sample::Single(m.current.shortwave_radiation),
        Sample::Single(m.current.direct_radiation),
        Sample::Single(m.current.diffuse_radiation),
        Sample::Single(m.current.direct_normal_irradiance),
        Sample::Single(m.current.terrestrial_radiation),
        Sample::Single(m.current.shortwave_radiation_instant),
        Sample::Single(m.current.direct_radiation_instant),
        Sample::Single(m.current.diffuse_radiation_instant),
        Sample::Single(m.current.direct_normal_irradiance_instant),
        Sample::Single(m.current.terrestrial_radiation_instant)
    ]
}

impl MeteoData {
    /// The gauge values that this answer gives, in gauge-table order.
    pub fn gauge_values(&self) -> (r: Vec<Sample>)
        ensures
            r@ == gauge_values_of(*self),
    {
        let mut r: Vec<Sample> = Vec::new();
        r.push(Sample::Single(self.latitude));
        r.push(Sample::Single(self.longitude));
        r.push(Sample::Single(self.elevation));
        r.push(Sample::Single(self.generationtime_ms));
        r.push(Sample::Single(self.current.temperature_2m));
        r.push(Sample::Single(self.current.relativehumidity_2m));
        r.push(Sample::Single(self.current.apparent_temperature));
        r.push(Sample::Small(self.current.is_day));
        r.push(Sample::Single(self.current.precipitation));
        r.push(Sample::Single(self.current.rain));
        r.push(Sample::Single(self.current.showers));
        r.push(Sample::Single(self.current.snowfall));
        r.push(Sample::Small(self.current.weathercode));
        r.push(Sample::Single(self.current.cloudcover));
        r.push(Sample::Single(self.current.pressure_msl));
        r.push(Sample::Single(self.current.surface_pressure));
        r.push(Sample::Single(self.current.windspeed_10m));
        r.push(Sample::Single(self.current.winddirection_10m));
        r.push(Sample::Single(self.current.windgusts_10m));
        r.push(Sample::Single(self.current.uv_index));
        r.push(Sample::Single(self.current.uv_index_clear_sky));
        r.push(Sample::Single(self.current.cape));
        r.push(Sample::Single(self.current.freezinglevel_height));
        r.push(Sample::Single(self.current.shortwave_radiation));
        r.push(Sample::Single(self.current.direct_radiation));
        r.push(Sample::Single(self.current.diffuse_radiation));
        r.push(Sample::Single(self.current.direct_normal_irradiance));
        r.push(Sample::Single(self.current.terrestrial_radiation));
        r.push(Sample::Single(self.current.shortwave_radiation_instant));
        r.push(Sample::Single(self.current.direct_radiation_instant));
        r.push(Sample::Single(self.current.diffuse_radiation_instant));
        r.push(Sample::Single(self.current.direct_normal_irradiance_instant));
        r.push(Sample::Single(self.current.terrestrial_radiation_instant));
        assert(r@ =~= gauge_values_of(*self));
        r
    }
}

} // verus!
