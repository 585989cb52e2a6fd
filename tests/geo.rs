use weather_crawler::{geolocation_url, select_location, AppState, GeoData, ResolveError};

fn candidate(lon: &str, lat: &str) -> GeoData {
    GeoData::new(lon.to_string(), lat.to_string())
}

#[test]
fn geo_location() {
    let parsed_data = vec![
        candidate("7.7689951", "49.4432174"),
        candidate("7.75", "49.44"),
    ];
    let chosen = select_location(&parsed_data).unwrap();
    assert_eq!(chosen.lon, "7.7689951");
    assert_eq!(chosen.lat, "49.4432174");
}

#[test]
fn no_candidate_is_an_error() {
    let none: Vec<GeoData> = Vec::new();
    assert_eq!(select_location(&none).unwrap_err(), ResolveError::NoCandidates);
}

#[test]
fn new_and_update_keep_the_coordinates() {
    let mut g = GeoData::new("1.5".to_string(), "2.5".to_string());
    assert_eq!(g.lon, "1.5");
    assert_eq!(g.lat, "2.5");
    g.update("7.7689951".to_string(), "49.4432174".to_string());
    assert_eq!(g.lon, "7.7689951");
    assert_eq!(g.lat, "49.4432174");
}

#[test]
fn bootstrap_stores_the_first_candidate() {
    let candidates = vec![
        candidate("7.7689951", "49.4432174"),
        candidate("0", "0"),
    ];
    let state = AppState::bootstrap(&candidates).unwrap();
    assert_eq!(state.location().lon, "7.7689951");
    assert_eq!(state.location().lat, "49.4432174");
}

#[test]
fn bootstrap_fails_without_candidates() {
    let none: Vec<GeoData> = Vec::new();
    match AppState::bootstrap(&none) {
        Ok(_) => panic!("started without a location"),
        Err(e) => assert_eq!(e, ResolveError::NoCandidates),
    }
}

#[test]
fn geolocation_url_appends_the_place() {
    assert_eq!(
        geolocation_url("Kaiserslautern"),
        "https://geocode.maps.co/search?q=Kaiserslautern"
    );
    assert_eq!(geolocation_url(""), "https://geocode.maps.co/search?q=");
}

#[test]
fn geolocation_url_escapes_the_place() {
    assert_eq!(
        geolocation_url("New York"),
        "https://geocode.maps.co/search?q=New%20York"
    );
    assert_eq!(geolocation_url("Köln"), "https://geocode.maps.co/search?q=K%C3%B6ln");
    assert_eq!(geolocation_url("a&b#c"), "https://geocode.maps.co/search?q=a%26b%23c");
    assert_eq!(
        geolocation_url("A-z_0.9~"),
        "https://geocode.maps.co/search?q=A-z_0.9~"
    );
}
