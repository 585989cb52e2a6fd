use weather_crawler::{
    gauge_descriptors, register_metrics, AppState, FetchError, GaugeLine, GeoData, MeteoData,
    Sample, WeatherData, WeatherUnitsData, GAUGE_COUNT,
};

/// A forecast answer whose float fields are `base + position` (position in
/// the gauge table), except temperature and wind speed, which are given;
/// the day flag is `day` and the weather code is `code`.
fn answer(base: f32, temperature: f32, windspeed: f32, day: u8, code: u8) -> MeteoData {
    let at = |i: u32| (base + i as f32).to_bits();
    let unit = |s: &str| s.to_string();
    MeteoData {
        latitude: at(0),
        longitude: at(1),
        elevation: at(2),
        generationtime_ms: at(3),
        utc_offset_seconds: 0,
        timezone: "GMT".to_string(),
        timezone_abbreviation: "GMT".to_string(),
        current_units: WeatherUnitsData {
            time: unit("unixtime"),
            temperature_2m: unit("u"),
            relativehumidity_2m: unit("u"),
            apparent_temperature: unit("u"),
            is_day: unit("u"),
            precipitation: unit("u"),
            rain: unit("u"),
            showers: unit("u"),
            snowfall: unit("u"),
            weathercode: unit("u"),
            cloudcover: unit("u"),
            pressure_msl: unit("u"),
            surface_pressure: unit("u"),
            windspeed_10m: unit("u"),
            winddirection_10m: unit("u"),
            windgusts_10m: unit("u"),
            uv_index: unit("u"),
            uv_index_clear_sky: unit("u"),
            cape: unit("u"),
            freezinglevel_height: unit("u"),
            shortwave_radiation: unit("u"),
            direct_radiation: unit("u"),
            diffuse_radiation: unit("u"),
            direct_normal_irradiance: unit("u"),
            terrestrial_radiation: unit("u"),
            shortwave_radiation_instant: unit("u"),
            direct_radiation_instant: unit("u"),
            diffuse_radiation_instant: unit("u"),
            direct_normal_irradiance_instant: unit("u"),
            terrestrial_radiation_instant: unit("u"),
        },
        current: WeatherData {
            time: 1696773600f32.to_bits(),
            temperature_2m: temperature.to_bits(),
            relativehumidity_2m: at(5),
            apparent_temperature: at(6),
            is_day: day,
            precipitation: at(8),
            rain: at(9),
            showers: at(10),
            snowfall: at(11),
            weathercode: code,
            cloudcover: at(13),
            pressure_msl: at(14),
            surface_pressure: at(15),
            windspeed_10m: windspeed.to_bits(),
            winddirection_10m: at(17),
            windgusts_10m: at(18),
            uv_index: at(19),
            uv_index_clear_sky: at(20),
            cape: at(21),
            freezinglevel_height: at(22),
            shortwave_radiation: at(23),
            direct_radiation: at(24),
            diffuse_radiation: at(25),
            direct_normal_irradiance: at(26),
            terrestrial_radiation: at(27),
            shortwave_radiation_instant: at(28),
            direct_radiation_instant: at(29),
            diffuse_radiation_instant: at(30),
            direct_normal_irradiance_instant: at(31),
            terrestrial_radiation_instant: at(32),
        },
    }
}

fn single(bits: u32) -> f32 {
    f32::from_bits(bits)
}

fn started() -> AppState {
    let candidates = vec![GeoData::new("7.7689951".to_string(), "49.4432174".to_string())];
    AppState::bootstrap(&candidates).unwrap()
}

fn values(lines: &[GaugeLine]) -> Vec<Sample> {
    lines.iter().map(|l| l.value).collect()
}

#[test]
fn current_weather() {
    let mut state = started();
    let lines = state.complete_scrape(Ok(answer(100.0, 14.2, 8.3, 1, 3))).unwrap();
    let temperature = lines.iter().find(|l| l.name == "TEMPERATURE_2M").unwrap();
    let wind = lines.iter().find(|l| l.name == "WINDSPEED_10M").unwrap();
    assert_eq!(temperature.value, Sample::Single(14.2f32.to_bits()));
    assert_eq!(wind.value, Sample::Single(8.3f32.to_bits()));
    match (temperature.value, wind.value) {
        (Sample::Single(t), Sample::Single(w)) => {
            assert_eq!(single(t), 14.2);
            assert_eq!(single(w), 8.3);
        }
        _ => panic!("float fields must stay floats"),
    }
}

#[test]
fn registered_gauges_start_at_zero() {
    let gauges = register_metrics();
    let lines = gauges.render();
    assert_eq!(lines.len(), GAUGE_COUNT);
    for i in 0..GAUGE_COUNT {
        assert_eq!(gauges.value(i), Sample::Single(0));
        assert_eq!(lines[i].value, Sample::Single(0));
    }
    assert_eq!(values(&started().render()), values(&lines));
}

#[test]
fn scrape_publishes_every_field_in_order() {
    let mut state = started();
    let lines = state.complete_scrape(Ok(answer(100.0, 14.2, 8.3, 1, 61))).unwrap();
    let table = gauge_descriptors();
    assert_eq!(lines.len(), table.len());
    for (line, (name, help)) in lines.iter().zip(table.iter()) {
        assert_eq!(line.name, *name);
        assert_eq!(line.help, *help);
    }
    assert_eq!(lines[0].value, Sample::Single(100.0f32.to_bits()));
    assert_eq!(lines[3].value, Sample::Single(103.0f32.to_bits()));
    assert_eq!(lines[5].name, "RELATIVEHUMIDITY_2M");
    assert_eq!(lines[5].value, Sample::Single(105.0f32.to_bits()));
    assert_eq!(lines[7].name, "IS_DAY");
    assert_eq!(lines[7].value, Sample::Small(1));
    assert_eq!(lines[12].name, "WEATHERCODE");
    assert_eq!(lines[12].value, Sample::Small(61));
    assert_eq!(lines[32].name, "TERRESTRIAL_RADIATION_INSTANT");
    assert_eq!(lines[32].value, Sample::Single(132.0f32.to_bits()));
}

#[test]
fn gauge_values_follow_the_table() {
    let m = answer(0.5, -3.25, 12.0, 0, 2);
    let v = m.gauge_values();
    assert_eq!(v.len(), GAUGE_COUNT);
    assert_eq!(v[1], Sample::Single(1.5f32.to_bits()));
    assert_eq!(v[4], Sample::Single((-3.25f32).to_bits()));
    assert_eq!(v[7], Sample::Small(0));
    assert_eq!(v[12], Sample::Small(2));
    assert_eq!(v[16], Sample::Single(12.0f32.to_bits()));
}

#[test]
fn render_twice_gives_the_same_lines() {
    let mut state = started();
    state.complete_scrape(Ok(answer(7.0, 14.2, 8.3, 1, 3))).unwrap();
    let first = state.render();
    let second = state.render();
    assert_eq!(first.len(), second.len());
    for (a, b) in first.iter().zip(second.iter()) {
        assert_eq!(a.name, b.name);
        assert_eq!(a.help, b.help);
        assert_eq!(a.value, b.value);
    }
}

#[test]
fn second_scrape_overwrites_every_gauge() {
    let mut state = started();
    state.complete_scrape(Ok(answer(100.0, 14.2, 8.3, 1, 3))).unwrap();
    let lines = state.complete_scrape(Ok(answer(200.0, -1.5, 0.0, 0, 95))).unwrap();
    let expected = answer(200.0, -1.5, 0.0, 0, 95).gauge_values();
    assert_eq!(values(&lines), expected);
    assert_eq!(values(&state.render()), expected);
}

#[test]
fn failed_decode_keeps_every_gauge() {
    let mut state = started();
    state.complete_scrape(Ok(answer(100.0, 14.2, 8.3, 1, 3))).unwrap();
    let before = values(&state.render());
    match state.complete_scrape(Err(FetchError::Decode)) {
        Ok(_) => panic!("a missing field must fail the scrape"),
        Err(e) => assert_eq!(e, FetchError::Decode),
    }
    assert_eq!(values(&state.render()), before);
    assert_eq!(state.render().len(), GAUGE_COUNT);
}

#[test]
fn failed_request_is_reported() {
    let mut state = started();
    match state.complete_scrape(Err(FetchError::Transport)) {
        Ok(_) => panic!("a failed request must fail the scrape"),
        Err(e) => assert_eq!(e, FetchError::Transport),
    }
    assert_eq!(values(&state.render()), values(&register_metrics().render()));
}
