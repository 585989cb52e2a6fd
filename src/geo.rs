use vstd::prelude::*;
use vstd::utf8::encode_utf8;

verus! {

/// Base of the geocoding search request; the place name follows it.
pub const GEOCODE_BASE: &'static str = "https://geocode.maps.co/search?q=";

/// A resolved location, longitude and latitude kept as the geocoding service
/// wrote them.
#[derive(Debug)]
pub struct GeoData {
    pub lon: String,
    pub lat: String,
}

impl GeoData {
    /// A location from its longitude and latitude.
    pub fn new(longitude: String, latitude: String) -> (r: Self)
        ensures
            r.lon@ == longitude@,
            r.lat@ == latitude@,
    {
        GeoData { lon: longitude, lat: latitude }
    }

    /// Replaces both coordinates.
    pub fn update(&mut self, longitude: String, latitude: String)
        ensures
            final(self).lon@ == longitude@,
            final(self).lat@ == latitude@,
    {
        self.lon = longitude;
        self.lat = latitude;
    }
}

/// Why no location could be chosen at startup.
#[derive(Debug, PartialEq, Eq, Structural)]
pub enum ResolveError {
    /// The geocoding service returned no candidate.
    NoCandidates,
}

/// Bytes that stand for themselves in a URL query (RFC 3986, unreserved):
/// ASCII letters and digits, `-`, `.`, `_` and `~`.
pub open spec fn is_unreserved(b: u8) -> bool {
    (65 <= b <= 90) || (97 <= b <= 122) || (48 <= b <= 57) || b == 45 || b == 46
        || b == 95 || b == 126
}

/// The upper-case hexadecimal digit of a value below sixteen (`0` is 48 and
/// `A` is 65 in ASCII).
pub open spec fn hex_digit(n: u8) -> char {
    if n < 10 {
        (48 + n) as char
    } else {
        (55 + n) as char
    }
}

/// A byte as it stands in a URL query: itself if unreserved, else a percent
/// sign and its two hexadecimal digits.
pub open spec fn escape_byte(b: u8) -> Seq<char> {
    if is_unreserved(b) {
        seq![b as char]
    } else {
        seq!['%', hex_digit(b / 16), hex_digit(b % 16)]
    }
}

/// Every byte of `bytes`, escaped for a URL query, in order.
pub open spec fn query_escaped(bytes: Seq<u8>) -> Seq<char>
    decreases bytes.len(),
{
    if bytes.len() == 0 {
        Seq::empty()
    } else {
        query_escaped(bytes.drop_last()) + escape_byte(bytes.last())
    }
}

/// The geocoding request for a place name: the base URL followed by the
/// UTF-8 bytes of the name, escaped for a URL query.
pub open spec fn geolocation_url_of(location: Seq<char>) -> Seq<char> {
    GEOCODE_BASE@ + query_escaped(encode_utf8(location))
}

/// Relies on `String::push`: appends one character.
#[verifier::external_body]
fn push_char(s: &mut String, c: char)
    ensures
        final(s)@ == old(s)@.push(c),
{
    s.push(c)
}

fn hex_digit_exec(n: u8) -> (r: char)
    requires
        n < 16,
    ensures
        r == hex_digit(n),
{
    if n < 10 {
        (48 + n) as char
    } else {
        (55 + n) as char
    }
}

fn is_unreserved_exec(b: u8) -> (r: bool)
    ensures
        r == is_unreserved(b),
{
    (65 <= b && b <= 90) || (97 <= b && b <= 122) || (48 <= b && b <= 57) || b == 45
        || b == 46 || b == 95 || b == 126
}

/// The geocoding search request for a place name.
pub fn geolocation_url(location: &str) -> (r: String)
    ensures
        r@ == geolocation_url_of(location@),
{
    let bytes = location.as_bytes();
    let mut url = GEOCODE_BASE.to_owned();
    let mut i: usize = 0;
    while i < bytes.len()
        invariant
            bytes@ == encode_utf8(location@),
            i <= bytes@.len(),
            url@ == GEOCODE_BASE@ + query_escaped(bytes@.take(i as int)),
        decreases bytes@.len() - i,
    {
        let b = bytes[i];
        let ghost before = url@;
        if is_unreserved_exec(b) {
            push_char(&mut url, b as char);
        } else {
            push_char(&mut url, '%');
            push_char(&mut url, hex_digit_exec(b / 16));
            push_char(&mut url, hex_digit_exec(b % 16));
        }
        proof {
            assert(bytes@.take(i as int + 1).drop_last() =~= bytes@.take(i as int));
            assert(url@ =~= before + escape_byte(b));
        }
        i = i + 1;
    }
    assert(bytes@.take(i as int) =~= bytes@);
    url
}

/// Picks the first candidate of a geocoding answer; any others are ignored.
pub fn select_location(candidates: &Vec<GeoData>) -> (r: Result<GeoData, ResolveError>)
    ensures
        candidates@.len() == 0 <==> r is Err,
        r is Err ==> r == Err::<GeoData, ResolveError>(ResolveError::NoCandidates),
        r is Ok ==> r->Ok_0.lon@ == candidates@[0].lon@ && r->Ok_0.lat@ == candidates@[0].lat@,
{
    if candidates.len() == 0 {
        Err(ResolveError::NoCandidates)
    } else {
        let first = &candidates[0];
        Ok(GeoData::new(first.lon.clone(), first.lat.clone()))
    }
}

} // verus!
