use vstd::prelude::*;

verus! {

/// Number of weather fields requested from the forecast service.
pub const FIELD_COUNT: usize = 29;

/// Number of gauges: four location gauges, then one per requested field.
pub const GAUGE_COUNT: usize = 33;

/// Start of the forecast request; the latitude follows it.
pub const FORECAST_BASE: &'static str = "http://api.open-meteo.com/v1/forecast?latitude=";

/// Query parameter that introduces the longitude.
pub const LONGITUDE_PARAM: &'static str = "&longitude=";

/// Fixed query parameters; the comma-separated field list follows them.
pub const CURRENT_PARAMS: &'static str = "&timeformat=unixtime&models=best_match&current=";

/// The keys of the current-weather fields, in the order in which they are
/// requested and in which their gauges are registered.
pub open spec fn field_keys() -> Seq<Seq<char>> {
    seq![        "temperature_2m"@,
        "relativehumidity_2m"@,
        "apparent_temperature"@,
        "is_day"@,
        "precipitation"@,
        "rain"@,
        "showers"@,
        "snowfall"@,
        "weathercode"@,
        "cloudcover"@,
        "pressure_msl"@,
        "surface_pressure"@,
        "windspeed_10m"@,
        "winddirection_10m"@,
        "windgusts_10m"@,
        "uv_index"@,
        "uv_index_clear_sky"@,
        "cape"@,
        "freezinglevel_height"@,
        "shortwave_radiation"@,
        "direct_radiation"@,
        "diffuse_radiation"@,
        "direct_normal_irradiance"@,
        "terrestrial_radiation"@,
        "shortwave_radiation_instant"@,
        "direct_radiation_instant"@,
        "diffuse_radiation_instant"@,
        "direct_normal_irradiance_instant"@,
        "terrestrial_radiation_instant"@
    ]
}

/// The gauge table: for each gauge, in registration order, its metric name
/// and its help text. The help text is the field the gauge is fed from.
pub open spec fn gauge_table() -> Seq<(Seq<char>, Seq<char>)> {
    seq![        ("LATITUDE"@, "latitude"@),
        ("LONGITUDE"@, "longitude"@),
        ("ELEVATION"@, "elevation"@),
        ("GENERATION_TIME"@, "generation_time"@),
        ("TEMPERATURE_2M"@, "temperature_2m"@),
        ("RELATIVEHUMIDITY_2M"@, "relativehumidity_2m"@),
        ("APPARENT_TEMPERATURE"@, "apparent_temperature"@),
        ("IS_DAY"@, "is_day"@),
        ("PRECIPITATION"@, "precipitation"@),
        ("RAIN"@, "rain"@),
        ("SHOWERS"@, "showers"@),
        ("SNOWFALL"@, "snowfall"@),
        ("WEATHERCODE"@, "weathercode"@),
        ("CLOUDCOVER"@, "cloudcover"@),
        ("PRESSURE_MSL"@, "pressure_msl"@),
        ("SURFACE_PRESSURE"@, "surface_pressure"@),
        ("WINDSPEED_10M"@, "windspeed_10m"@),
        ("WINDDIRECTION_10M"@, "winddirection_10m"@),
        ("WINDGUSTS_10M"@, "windgusts_10m"@),
        ("UV_INDEX"@, "uv_index"@),
        ("UV_INDEX_CLEAR_SKY"@, "uv_index_clear_sky"@),
        ("CAPE"@, "cape"@),
        ("FREEZINGLEVEL_HEIGHT"@, "freezinglevel_height"@),
        ("SHORTWAVE_RADIATION"@, "shortwave_radiation"@),
        ("DIRECT_RADIATION"@, "direct_radiation"@),
        ("DIFFUSE_RADIATION"@, "diffuse_radiation"@),
        ("DIRECT_NORMAL_IRRADIANCE"@, "direct_normal_irradiance"@),
        ("TERRESTRIAL_RADIATION"@, "terrestrial_radiation"@),
        ("SHORTWAVE_RADIATION_INSTANT"@, "shortwave_radiation_instant"@),
        ("DIRECT_RADIATION_INSTANT"@, "direct_radiation_instant"@),
        ("DIFFUSE_RADIATION_INSTANT"@, "diffuse_radiation_instant"@),
        ("DIRECT_NORMAL_IRRADIANCE_INSTANT"@, "direct_normal_irradiance_instant"@),
        ("TERRESTRIAL_RADIATION_INSTANT"@, "terrestrial_radiation_instant"@)
    ]
}

/// The field keys, as literals that the executable code hands out.
pub fn requested_fields() -> (r: Vec<&'static str>)
    ensures
        r@.len() == FIELD_COUNT,
        r@.len() == field_keys().len(),
        forall|i: int| 0 <= i < r@.len() ==> #[trigger] r@[i]@ == field_keys()[i],
{
    let mut r: Vec<&'static str> = Vec::new();
    r.push("temperature_2m");
    r.push("relativehumidity_2m");
    r.push("apparent_temperature");
    r.push("is_day");
    r.push("precipitation");
    r.push("rain");
    r.push("showers");
    r.push("snowfall");
    r.push("weathercode");
    r.push("cloudcover");
    r.push("pressure_msl");
    r.push("surface_pressure");
    r.push("windspeed_10m");
    r.push("winddirection_10m");
    r.push("windgusts_10m");
    r.push("uv_index");
    r.push("uv_index_clear_sky");
    r.push("cape");
    r.push("freezinglevel_height");
    r.push("shortwave_radiation");
    r.push("direct_radiation");
    r.push("diffuse_radiation");
    r.push("direct_normal_irradiance");
    r.push("terrestrial_radiation");
    r.push("shortwave_radiation_instant");
    r.push("direct_radiation_instant");
    r.push("diffuse_radiation_instant");
    r.push("direct_normal_irradiance_instant");
    r.push("terrestrial_radiation_instant");
    r
}

/// The gauge table, as name and help literals for registration.
pub fn gauge_descriptors() -> (r: Vec<(&'static str, &'static str)>)
    ensures
        r@.len() == GAUGE_COUNT,
        r@.len() == gauge_table().len(),
        forall|i: int|
            0 <= i < r@.len() ==> (#[trigger] r@[i]).0@ == gauge_table()[i].0 && r@[i].1@
                == gauge_table()[i].1,
{
    let mut r: Vec<(&'static str, &'static str)> = Vec::new();
    r.push(("LATITUDE", "latitude"));
    r.push(("LONGITUDE", "longitude"));
    r.push(("ELEVATION", "elevation"));
    r.push(("GENERATION_TIME", "generation_time"));
    r.push(("TEMPERATURE_2M", "temperature_2m"));
    r.push(("RELATIVEHUMIDITY_2M", "relativehumidity_2m"));
    r.push(("APPARENT_TEMPERATURE", "apparent_temperature"));
    r.push(("IS_DAY", "is_day"));
    r.push(("PRECIPITATION", "precipitation"));
    r.push(("RAIN", "rain"));
    r.push(("SHOWERS", "showers"));
    r.push(("SNOWFALL", "snowfall"));
    r.push(("WEATHERCODE", "weathercode"));
    r.push(("CLOUDCOVER", "cloudcover"));
    r.push(("PRESSURE_MSL", "pressure_msl"));
    r.push(("SURFACE_PRESSURE", "surface_pressure"));
    r.push(("WINDSPEED_10M", "windspeed_10m"));
    r.push(("WINDDIRECTION_10M", "winddirection_10m"));
    r.push(("WINDGUSTS_10M", "windgusts_10m"));
    r.push(("UV_INDEX", "uv_index"));
    r.push(("UV_INDEX_CLEAR_SKY", "uv_index_clear_sky"));
    r.push(("CAPE", "cape"));
    r.push(("FREEZINGLEVEL_HEIGHT", "freezinglevel_height"));
    r.push(("SHORTWAVE_RADIATION", "shortwave_radiation"));
    r.push(("DIRECT_RADIATION", "direct_radiation"));
    r.push(("DIFFUSE_RADIATION", "diffuse_radiation"));
    r.push(("DIRECT_NORMAL_IRRADIANCE", "direct_normal_irradiance"));
    r.push(("TERRESTRIAL_RADIATION", "terrestrial_radiation"));
    r.push(("SHORTWAVE_RADIATION_INSTANT", "shortwave_radiation_instant"));
    r.push(("DIRECT_RADIATION_INSTANT", "direct_radiation_instant"));
    r.push(("DIFFUSE_RADIATION_INSTANT", "diffuse_radiation_instant"));
    r.push(("DIRECT_NORMAL_IRRADIANCE_INSTANT", "direct_normal_irradiance_instant"));
    r.push(("TERRESTRIAL_RADIATION_INSTANT", "terrestrial_radiation_instant"));
    r
}

/// No two gauges share a metric name, so no gauge is registered twice.
pub proof fn lemma_gauge_names_distinct()
    ensures
        forall|i: int, j: int|
            0 <= i < gauge_table().len() && 0 <= j < gauge_table().len() && i != j
                ==> #[trigger] gauge_table()[i].0 != #[trigger] gauge_table()[j].0,
{
    broadcast use vstd::string::group_string_axioms;

    reveal_strlit("LATITUDE");
    reveal_strlit("LONGITUDE");
    reveal_strlit("ELEVATION");
    reveal_strlit("GENERATION_TIME");
    reveal_strlit("TEMPERATURE_2M");
    reveal_strlit("RELATIVEHUMIDITY_2M");
    reveal_strlit("APPARENT_TEMPERATURE");
    reveal_strlit("IS_DAY");
    reveal_strlit("PRECIPITATION");
    reveal_strlit("RAIN");
    reveal_strlit("SHOWERS");
    reveal_strlit("SNOWFALL");
    reveal_strlit("WEATHERCODE");
    reveal_strlit("CLOUDCOVER");
    reveal_strlit("PRESSURE_MSL");
    reveal_strlit("SURFACE_PRESSURE");
    reveal_strlit("WINDSPEED_10M");
    reveal_strlit("WINDDIRECTION_10M");
    reveal_strlit("WINDGUSTS_10M");
    reveal_strlit("UV_INDEX");
    reveal_strlit("UV_INDEX_CLEAR_SKY");
    reveal_strlit("CAPE");
    reveal_strlit("FREEZINGLEVEL_HEIGHT");
    reveal_strlit("SHORTWAVE_RADIATION");
    reveal_strlit("DIRECT_RADIATION");
    reveal_strlit("DIFFUSE_RADIATION");
    reveal_strlit("DIRECT_NORMAL_IRRADIANCE");
    reveal_strlit("TERRESTRIAL_RADIATION");
    reveal_strlit("SHORTWAVE_RADIATION_INSTANT");
    reveal_strlit("DIRECT_RADIATION_INSTANT");
    reveal_strlit("DIFFUSE_RADIATION_INSTANT");
    reveal_strlit("DIRECT_NORMAL_IRRADIANCE_INSTANT");
    reveal_strlit("TERRESTRIAL_RADIATION_INSTANT");
    assert("LATITUDE"@.len() == 8);
    assert("LONGITUDE"@.len() == 9);
    assert("ELEVATION"@.len() == 9);
    assert("GENERATION_TIME"@.len() == 15);
    assert("TEMPERATURE_2M"@.len() == 14);
    assert("RELATIVEHUMIDITY_2M"@.len() == 19);
    assert("APPARENT_TEMPERATURE"@.len() == 20);
    assert("IS_DAY"@.len() == 6);
    assert("PRECIPITATION"@.len() == 13);
    assert("RAIN"@.len() == 4);
    assert("SHOWERS"@.len() == 7);
    assert("SNOWFALL"@.len() == 8);
    assert("WEATHERCODE"@.len() == 11);
    assert("CLOUDCOVER"@.len() == 10);
    assert("PRESSURE_MSL"@.len() == 12);
    assert("SURFACE_PRESSURE"@.len() == 16);
    assert("WINDSPEED_10M"@.len() == 13);
    assert("WINDDIRECTION_10M"@.len() == 17);
    assert("WINDGUSTS_10M"@.len() == 13);
    assert("UV_INDEX"@.len() == 8);
    assert("UV_INDEX_CLEAR_SKY"@.len() == 18);
    assert("CAPE"@.len() == 4);
    assert("FREEZINGLEVEL_HEIGHT"@.len() == 20);
    assert("SHORTWAVE_RADIATION"@.len() == 19);
    assert("DIRECT_RADIATION"@.len() == 16);
    assert("DIFFUSE_RADIATION"@.len() == 17);
    assert("DIRECT_NORMAL_IRRADIANCE"@.len() == 24);
    assert("TERRESTRIAL_RADIATION"@.len() == 21);
    assert("SHORTWAVE_RADIATION_INSTANT"@.len() == 27);
    assert("DIRECT_RADIATION_INSTANT"@.len() == 24);
    assert("DIFFUSE_RADIATION_INSTANT"@.len() == 25);
    assert("DIRECT_NORMAL_IRRADIANCE_INSTANT"@.len() == 32);
    assert("TERRESTRIAL_RADIATION_INSTANT"@.len() == 29);
    assert("LATITUDE"@[0] != "SNOWFALL"@[0]);
    assert("LATITUDE"@[0] != "UV_INDEX"@[0]);
    assert("LONGITUDE"@[0] != "ELEVATION"@[0]);
    assert("RELATIVEHUMIDITY_2M"@[0] != "SHORTWAVE_RADIATION"@[0]);
    assert("APPARENT_TEMPERATURE"@[0] != "FREEZINGLEVEL_HEIGHT"@[0]);
    assert("PRECIPITATION"@[0] != "WINDSPEED_10M"@[0]);
    assert("PRECIPITATION"@[0] != "WINDGUSTS_10M"@[0]);
    assert("RAIN"@[0] != "CAPE"@[0]);
    assert("SNOWFALL"@[0] != "UV_INDEX"@[0]);
    assert("SURFACE_PRESSURE"@[0] != "DIRECT_RADIATION"@[0]);
    assert("WINDSPEED_10M"@[4] != "WINDGUSTS_10M"@[4]);
    assert("WINDDIRECTION_10M"@[0] != "DIFFUSE_RADIATION"@[0]);
    assert("DIRECT_NORMAL_IRRADIANCE"@[7] != "DIRECT_RADIATION_INSTANT"@[7]);
}

/// The items of `s` separated by commas.
pub open spec fn comma_joined(s: Seq<Seq<char>>) -> Seq<char>
    decreases s.len(),
{
    if s.len() == 0 {
        Seq::empty()
    } else if s.len() == 1 {
        s[0]
    } else {
        comma_joined(s.drop_last()) + ","@ + s.last()
    }
}

/// The forecast request for a location: its coordinates, the fixed
/// parameters, and every field key of the schema, comma-separated.
pub open spec fn weather_url_of(latitude: Seq<char>, longitude: Seq<char>) -> Seq<char> {
    FORECAST_BASE@ + latitude + LONGITUDE_PARAM@ + longitude + CURRENT_PARAMS@ + comma_joined(
        field_keys(),
    )
}

/// The forecast request for the given coordinates.
pub fn weather_url(latitude: &str, longitude: &str) -> (r: String)
    ensures
        r@ == weather_url_of(latitude@, longitude@),
{
    let keys = requested_fields();
    let ghost spec_keys = field_keys();
    let mut list = String::new();
    let mut i: usize = 0;
    while i < keys.len()
        invariant
            i <= keys@.len(),
            keys@.len() == spec_keys.len(),
            spec_keys == field_keys(),
            forall|j: int| 0 <= j < keys@.len() ==> #[trigger] keys@[j]@ == spec_keys[j],
            list@ == comma_joined(spec_keys.take(i as int)),
        decreases keys@.len() - i,
    {
        if i > 0 {
            list.append(",");
        }
        list.append(keys[i]);
        proof {
            let next = spec_keys.take(i as int + 1);
            assert(next.drop_last() =~= spec_keys.take(i as int));
            if i == 0 {
                assert(list@ =~= next[0]);
            }
        }
        i = i + 1;
    }
    assert(spec_keys.take(i as int) =~= spec_keys);
    let mut url = FORECAST_BASE.to_owned();
    url.append(latitude);
    url.append(LONGITUDE_PARAM);
    url.append(longitude);
    url.append(CURRENT_PARAMS);
    url.append(list.as_str());
    url
}

} // verus!
