use vstd::prelude::*;
use crate::control::WeatherKind;
use crate::float_bits::F64Bits;
use crate::text::{blank, is_blank, text_equals, text_of};

verus! {

/// The largest weather response read, in bytes.
pub const MAX_WEATHER_RESPONSE_BYTES: usize = 65_536;

/// The weather service used unless another is configured.
pub open spec fn default_open_meteo_endpoint() -> Seq<char> {
    "https://api.open-meteo.com/v1/forecast"@
}

/// An error of the environment services.
#[derive(Clone, Debug, PartialEq, Eq)]
pub enum EnvironmentError {
    InvalidCoordinates(String),
    InvalidTimezone(String),
    InvalidEndpoint(String),
    InvalidResponse(String),
    Network(String),
    HttpStatus(u32),
    ResponseTooLarge(usize),
    ProviderNotConfigured,
    UnsupportedPlatform,
}

/// `a <= b` for binary64 numbers, as IEEE 754 compares.
pub open spec fn le_bits(a: u64, b: F64Bits) -> bool {
    (F64Bits { bits: a }).at_most(b)
}

/// The weather class of an observation, safety first: rain when the chance
/// of rain is at least 35 %, fog when visibility is at most 3 km, clouds from
/// 60 % cover on, clear otherwise.
pub open spec fn weather_class(cloud_cover: int, visibility_km: F64Bits, rain: F64Bits) -> WeatherKind {
    if le_bits(0x3fd6666666666666, rain) {
        WeatherKind::Rain
    } else if visibility_km.at_most(F64Bits { bits: 0x4008000000000000 }) {
        WeatherKind::Fog
    } else if cloud_cover >= 60 {
        WeatherKind::Cloudy
    } else {
        WeatherKind::Clear
    }
}

/// Classifies an observation.
pub fn classify_weather(
    cloud_cover: i32,
    visibility_km: F64Bits,
    precipitation_probability: F64Bits,
) -> (r: WeatherKind)
    ensures
        r == weather_class(cloud_cover as int, visibility_km, precipitation_probability),
{
    if F64Bits::from_bits(0x3fd6666666666666).le(&precipitation_probability) {
        WeatherKind::Rain
    } else if visibility_km.le(&F64Bits::from_bits(0x4008000000000000)) {
        WeatherKind::Fog
    } else if cloud_cover >= 60 {
        WeatherKind::Cloudy
    } else {
        WeatherKind::Clear
    }
}

/// The message for a latitude out of range.
pub open spec fn latitude_message() -> Seq<char> {
    "latitude must be finite and in -90..=90"@
}

/// The message for a longitude out of range.
pub open spec fn longitude_message() -> Seq<char> {
    "longitude must be finite and in -180..=180"@
}

/// Whether `v` lies in `lo..=hi` (a NaN does not).
pub open spec fn bits_within(v: F64Bits, lo: u64, hi: u64) -> bool {
    (F64Bits { bits: lo }).at_most(v) && v.at_most(F64Bits { bits: hi })
}

/// Checks that a position lies on the globe: latitude in `-90..=90`, then
/// longitude in `-180..=180`.
pub fn validate_coordinates(latitude: F64Bits, longitude: F64Bits) -> (r: Result<
    (),
    EnvironmentError,
>)
    ensures
        !bits_within(latitude, 0xc056800000000000, 0x4056800000000000) ==> (r matches Err(
            EnvironmentError::InvalidCoordinates(m),
        ) && m@ == latitude_message()),
        bits_within(latitude, 0xc056800000000000, 0x4056800000000000) && !bits_within(
            longitude,
            0xc066800000000000,
            0x4066800000000000,
        ) ==> (r matches Err(EnvironmentError::InvalidCoordinates(m)) && m@ == longitude_message()),
        r is Ok <==> bits_within(latitude, 0xc056800000000000, 0x4056800000000000)
            && bits_within(longitude, 0xc066800000000000, 0x4066800000000000),
{
    if !(F64Bits::from_bits(0xc056800000000000).le(&latitude) && latitude.le(
        &F64Bits::from_bits(0x4056800000000000),
    )) {
        return Err(
            EnvironmentError::InvalidCoordinates(
                String::from_str("latitude must be finite and in -90..=90"),
            ),
        );
    }
    if !(F64Bits::from_bits(0xc066800000000000).le(&longitude) && longitude.le(
        &F64Bits::from_bits(0x4066800000000000),
    )) {
        return Err(
            EnvironmentError::InvalidCoordinates(
                String::from_str("longitude must be finite and in -180..=180"),
            ),
        );
    }
    Ok(())
}

/// Refuses a weather response longer than `MAX_WEATHER_RESPONSE_BYTES`.
pub fn check_response_size(length: usize) -> (r: Result<(), EnvironmentError>)
    ensures
        length <= MAX_WEATHER_RESPONSE_BYTES ==> r is Ok,
        length > MAX_WEATHER_RESPONSE_BYTES ==> r == Err::<(), EnvironmentError>(
            EnvironmentError::ResponseTooLarge(length),
        ),
{
    if length > MAX_WEATHER_RESPONSE_BYTES {
        Err(EnvironmentError::ResponseTooLarge(length))
    } else {
        Ok(())
    }
}

/// Accepts an HTTP status in `200..300`; any other is an error naming it.
pub fn check_http_status(status: u32) -> (r: Result<(), EnvironmentError>)
    ensures
        200 <= status < 300 ==> r is Ok,
        !(200 <= status < 300) ==> r == Err::<(), EnvironmentError>(
            EnvironmentError::HttpStatus(status),
        ),
{
    if 200 <= status && status < 300 {
        Ok(())
    } else {
        Err(EnvironmentError::HttpStatus(status))
    }
}

/// Whether `available` more bytes of a response may be read after
/// `received` bytes when at most `maximum` are read in all. Reading past the
/// limit, or on after reaching it, is an error that names the length the
/// response would have had (saturating).
pub fn accept_response_chunk(received: usize, available: u32, maximum: usize) -> (r: Result<
    (),
    EnvironmentError,
>)
    ensures
        (received < maximum && available as int <= maximum - received) ==> r is Ok,
        !(received < maximum && available as int <= maximum - received) ==> r == Err::<
            (),
            EnvironmentError,
        >(
            EnvironmentError::ResponseTooLarge(
                if received + available > usize::MAX {
                    usize::MAX
                } else {
                    (received + available) as usize
                },
            ),
        ),
{
    let remaining = maximum.saturating_sub(received);
    let more = available as usize;
    if remaining == 0 || more > remaining {
        Err(EnvironmentError::ResponseTooLarge(received.saturating_add(more)))
    } else {
        Ok(())
    }
}

/// The object of an HTTP request: the path, then `?` and the query when
/// the URL has one.
pub fn request_target(path: &str, query: Option<&str>) -> (r: String)
    ensures
        query is None ==> r@ == path@,
        query matches Some(q) ==> r@ == path@ + "?"@ + q@,
{
    let mut object = path.to_string();
    match query {
        Some(q) => {
            object.append("?");
            object.append(q);
        },
        None => {},
    }
    object
}

/// A URL of the `url` crate, carried unread.
#[verifier::external_type_specification]
#[verifier::external_body]
pub struct ExUrl(url::Url);

/// What `url::Url::parse` makes of `text`: the scheme, whether there is a
/// host, and the serialization of the URL (`Url::as_str`); or the text of
/// the parse error.
pub uninterp spec fn url_parse_outcome(text: Seq<char>) -> Result<(Seq<char>, bool, Seq<char>), Seq<char>>;

/// Parses `text` with `url::Url::parse`, and reads the scheme with
/// `Url::scheme`, whether there is a host with `Url::host_str` and the
/// serialization with `Url::as_str`. Claimed: the outcome, and the text of
/// the error (its `Display`), depend on the text alone, and are named
/// `url_parse_outcome`.
#[verifier::external_body]
fn parse_url(text: &str) -> (r: Result<(url::Url, String, bool, String), String>)
    ensures
        match r {
            Ok((_, scheme, host, serial)) => url_parse_outcome(text@) == Ok::<
                (Seq<char>, bool, Seq<char>),
                Seq<char>,
            >((scheme@, host, serial@)),
            Err(message) => url_parse_outcome(text@) == Err::<
                (Seq<char>, bool, Seq<char>),
                Seq<char>,
            >(message@),
        },
{
    match url::Url::parse(text) {
        Ok(url) => {
            let scheme = url.scheme().to_string();
            let host = url.host_str().is_some();
            let serial = url.as_str().to_string();
            Ok((url, scheme, host, serial))
        },
        Err(error) => Err(error.to_string()),
    }
}

/// What parsing the URL `text` with `url::Url::parse` and appending the
/// pair `name=value` to its query gives, as its serialization; `None` when
/// `text` does not parse.
pub uninterp spec fn url_with_pair(text: Seq<char>, name: Seq<char>, value: Seq<char>) -> Option<
    Seq<char>,
>;

/// Parses `text` with `url::Url::parse`, appends `name=value` to its query
/// with `Url::query_pairs_mut` and `Serializer::append_pair`
/// (form-encoded), and reads the serialization with `Url::as_str`. Claimed:
/// the outcome depends on the arguments alone, and is named
/// `url_with_pair`. The library hands it the serialization of a URL it
/// parsed before, which `url` parses back to the same URL.
#[verifier::external_body]
fn append_query_pair(text: &str, name: &str, value: &str) -> (r: Option<(url::Url, String)>)
    ensures
        match r {
            Some((_, serial)) => url_with_pair(text@, name@, value@) == Some(serial@),
            None => url_with_pair(text@, name@, value@) is None,
        },
{
    let mut url = url::Url::parse(text).ok()?;
    url.query_pairs_mut().append_pair(name, value);
    let serial = url.as_str().to_string();
    Some((url, serial))
}

/// The serialization of the URL `text` after appending `pairs` in order;
/// `None` when one step does not parse.
pub open spec fn url_with_pairs(text: Seq<char>, pairs: Seq<(Seq<char>, Seq<char>)>) -> Option<
    Seq<char>,
>
    decreases pairs.len(),
{
    if pairs.len() == 0 {
        Some(text)
    } else {
        match url_with_pair(text, pairs[0].0, pairs[0].1) {
            None => None,
            Some(next) => url_with_pairs(next, pairs.drop_first()),
        }
    }
}

/// Why an update channel cannot be used, or `None` when it can: a
/// missing or blank endpoint, then a missing or blank signing key, then an
/// endpoint that is not a URL, then one that is not `https`.
pub open spec fn update_channel_problem(endpoint: Option<Seq<char>>, public_key: Option<Seq<char>>) -> Option<
    Seq<char>,
> {
    if endpoint is None || blank(endpoint->0) {
        Some("Update channel is not configured for this build"@)
    } else if public_key is None || blank(public_key->0) {
        Some("Update signing key is not configured for this build"@)
    } else {
        match url_parse_outcome(endpoint->0) {
            Err(message) => Some("Update endpoint is invalid: "@ + message),
            Ok((scheme, _, _)) => if scheme != "https"@ {
                Some("Update endpoint must use HTTPS"@)
            } else {
                None
            },
        }
    }
}

/// The update channel a build was configured with: the endpoint as a URL
/// with its serialization, and the signing key; or why the channel cannot
/// be used.
pub fn update_configuration(endpoint: Option<&str>, public_key: Option<&str>) -> (r: Result<
    (url::Url, String, String),
    String,
>)
    ensures
        match update_channel_problem(
            match endpoint {
                Some(e) => Some(e@),
                None => None,
            },
            match public_key {
                Some(k) => Some(k@),
                None => None,
            },
        ) {
            Some(problem) => r matches Err(message) && message@ == problem,
            None => r matches Ok((_, serial, key)) && Some(key@) == (match public_key {
                Some(k) => Some(k@),
                None => None,
            }) && (match endpoint {
                Some(e) => url_parse_outcome(e@) matches Ok((_, _, s)) && serial@ == s,
                None => false,
            }),
        },
{
    proof {
        reveal_strlit("Update channel is not configured for this build");
        reveal_strlit("Update signing key is not configured for this build");
        reveal_strlit("Update endpoint is invalid: ");
        reveal_strlit("Update endpoint must use HTTPS");
        reveal_strlit("https");
    }
    let endpoint = match endpoint {
        Some(e) => if is_blank(e) {
            return Err(String::from_str("Update channel is not configured for this build"));
        } else {
            e
        },
        None => {
            return Err(String::from_str("Update channel is not configured for this build"));
        },
    };
    let public_key = match public_key {
        Some(k) => if is_blank(k) {
            return Err(String::from_str("Update signing key is not configured for this build"));
        } else {
            k
        },
        None => {
            return Err(String::from_str("Update signing key is not configured for this build"));
        },
    };
    match parse_url(endpoint) {
        Err(error) => {
            let mut message = String::from_str("Update endpoint is invalid: ");
            message.append(error.as_str());
            Err(message)
        },
        Ok((url, scheme, _, serial)) => {
            if !text_equals(scheme.as_str(), "https") {
                Err(String::from_str("Update endpoint must use HTTPS"))
            } else {
                Ok((url, serial, public_key.to_string()))
            }
        },
    }
}


/// A request for the current weather at a place.
#[derive(Clone, Debug)]
pub struct WeatherRequest {
    pub endpoint: String,
    pub api_key: Option<String>,
    pub latitude: String,
    pub longitude: String,
    pub timezone: String,
}

/// The first of `candidates` that is present and not blank.
pub open spec fn first_filled(candidates: Seq<Option<String>>) -> Option<Seq<char>>
    decreases candidates.len(),
{
    if candidates.len() == 0 {
        None
    } else {
        match candidates[0] {
            Some(v) => if !blank(v@) {
                Some(v@)
            } else {
                first_filled(candidates.drop_first())
            },
            None => first_filled(candidates.drop_first()),
        }
    }
}

/// A configured value, unless it is missing or blank.
pub fn filled(value: Option<String>) -> (r: Option<String>)
    ensures
        text_of(r) == first_filled(seq![value]),
{
    proof {
        assert(seq![value].drop_first() =~= Seq::<Option<String>>::empty());
        assert(seq![value][0] == value);
        reveal_with_fuel(first_filled, 2);
    }
    match value {
        Some(v) => if is_blank(v.as_str()) {
            None
        } else {
            Some(v)
        },
        None => None,
    }
}

/// The weather service to ask: the endpoint configured at run time, else
/// the one built in, else Open-Meteo; blank settings count as missing.
pub fn weather_endpoint(configured: Option<String>, built_in: Option<String>) -> (r: String)
    ensures
        r@ == match first_filled(seq![configured, built_in]) {
            Some(e) => e,
            None => default_open_meteo_endpoint(),
        },
{
    proof {
        reveal_strlit("https://api.open-meteo.com/v1/forecast");
        assert(seq![configured, built_in].drop_first() =~= seq![built_in]);
        assert(seq![built_in].drop_first() =~= Seq::<Option<String>>::empty());
        assert(seq![configured].drop_first() =~= Seq::<Option<String>>::empty());
        assert(seq![configured, built_in][0] == configured);
        assert(seq![built_in][0] == built_in);
        reveal_with_fuel(first_filled, 3);
    }
    match filled(configured) {
        Some(e) => e,
        None => match filled(built_in) {
            Some(e) => e,
            None => String::from_str("https://api.open-meteo.com/v1/forecast"),
        },
    }
}

/// The message for an endpoint whose URL cannot take the query.
pub open spec fn unextendable_endpoint_message() -> Seq<char> {
    "weather endpoint could not take the query"@
}

/// The message for an endpoint that is not a secure URL with a host.
pub open spec fn insecure_endpoint_message() -> Seq<char> {
    "weather endpoint must be an HTTPS URL with a host"@
}

/// The texts of a list of query pairs.
pub open spec fn pair_texts(v: Seq<(String, String)>) -> Seq<(Seq<char>, Seq<char>)> {
    v.map_values(|p: (String, String)| (p.0@, p.1@))
}

/// The query of a weather request: position, the three current values,
/// the time zone (`auto` for the system one), one day of forecast, and the
/// key when there is one.
pub open spec fn request_query(r: WeatherRequest) -> Seq<(Seq<char>, Seq<char>)> {
    let base = seq![
        ("latitude"@, r.latitude@),
        ("longitude"@, r.longitude@),
        ("current"@, "cloud_cover,visibility,precipitation_probability"@),
        ("timezone"@, if r.timezone@ == "system"@ {
            "auto"@
        } else {
            r.timezone@
        }),
        ("forecast_days"@, "1"@),
    ];
    match r.api_key {
        Some(key) => base.push(("apikey"@, key@)),
        None => base,
    }
}

/// A pair of owned strings.
fn pair(name: &str, value: &str) -> (r: (String, String))
    ensures
        r.0@ == name@,
        r.1@ == value@,
{
    (String::from_str(name), String::from_str(value))
}

impl WeatherRequest {
    /// The query pairs of the request, in order.
    pub fn query_pairs(&self) -> (r: Vec<(String, String)>)
        ensures
            pair_texts(r@) == request_query(*self),
    {
        let mut pairs: Vec<(String, String)> = Vec::new();
        pairs.push(pair("latitude", self.latitude.as_str()));
        pairs.push(pair("longitude", self.longitude.as_str()));
        pairs.push(pair("current", "cloud_cover,visibility,precipitation_probability"));
        let zone = if text_equals(self.timezone.as_str(), "system") {
            "auto"
        } else {
            self.timezone.as_str()
        };
        pairs.push(pair("timezone", zone));
        pairs.push(pair("forecast_days", "1"));
        match &self.api_key {
            Some(key) => pairs.push(pair("apikey", key.as_str())),
            None => {},
        }
        assert(pair_texts(pairs@) =~= request_query(*self));
        pairs
    }

    /// The URL to fetch, with its serialization: the endpoint, which must
    /// be an `https` URL with a host (or `http` too when `allow_plain_http`),
    /// with the query pairs appended in order. A blank endpoint means no
    /// provider is configured.
    pub fn url_with(&self, allow_plain_http: bool) -> (r: Result<(url::Url, String), EnvironmentError>)
        ensures
            blank(self.endpoint@) ==> r == Err::<(url::Url, String), EnvironmentError>(
                EnvironmentError::ProviderNotConfigured,
            ),
            !blank(self.endpoint@) ==> match url_parse_outcome(self.endpoint@) {
                Err(m) => r matches Err(EnvironmentError::InvalidEndpoint(x)) && x@ == m,
                Ok((scheme, host, serial)) => if (scheme == "https"@ || (allow_plain_http && scheme
                    == "http"@)) && host {
                    match url_with_pairs(serial, request_query(*self)) {
                        Some(t) => r matches Ok((_, text)) && text@ == t,
                        None => r matches Err(EnvironmentError::InvalidEndpoint(x)) && x@
                            == unextendable_endpoint_message(),
                    }
                } else {
                    r matches Err(EnvironmentError::InvalidEndpoint(x)) && x@
                        == insecure_endpoint_message()
                },
            },
    {
        if is_blank(self.endpoint.as_str()) {
            return Err(EnvironmentError::ProviderNotConfigured);
        }
        let (mut url, scheme, host, mut text) = match parse_url(self.endpoint.as_str()) {
            Ok(parsed) => parsed,
            Err(message) => {
                return Err(EnvironmentError::InvalidEndpoint(message));
            },
        };
        proof {
            reveal_strlit("https");
            reveal_strlit("http");
        }
        let secure = text_equals(scheme.as_str(), "https");
        let plain = allow_plain_http && text_equals(scheme.as_str(), "http");
        if !(secure || plain) || !host {
            return Err(
                EnvironmentError::InvalidEndpoint(
                    String::from_str("weather endpoint must be an HTTPS URL with a host"),
                ),
            );
        }
        let pairs = self.query_pairs();
        let ghost query = pair_texts(pairs@);
        let ghost start = text@;
        let mut i: usize = 0;
        assert(query.subrange(0, query.len() as int) =~= query);
        while i < pairs.len()
            invariant
                0 <= i <= pairs@.len(),
                query == pair_texts(pairs@),
                query == request_query(*self),
                !blank(self.endpoint@),
                url_parse_outcome(self.endpoint@) == Ok::<(Seq<char>, bool, Seq<char>), Seq<char>>(
                    (scheme@, host, start),
                ),
                (scheme@ == "https"@ || (allow_plain_http && scheme@ == "http"@)) && host,
                url_with_pairs(start, query) == url_with_pairs(text@, query.subrange(i as int, query.len() as int)),
            decreases pairs@.len() - i,
        {
            let ghost rest = query.subrange(i as int, query.len() as int);
            assert(rest[0] == (pairs@[i as int].0@, pairs@[i as int].1@));
            assert(rest.drop_first() =~= query.subrange(i + 1, query.len() as int));
            match append_query_pair(text.as_str(), pairs[i].0.as_str(), pairs[i].1.as_str()) {
                Some((next_url, next_text)) => {
                    url = next_url;
                    text = next_text;
                },
                None => {
                    proof {
                        reveal_strlit("weather endpoint could not take the query");
                    }
                    return Err(
                        EnvironmentError::InvalidEndpoint(
                            String::from_str("weather endpoint could not take the query"),
                        ),
                    );
                },
            }
            i += 1;
        }
        assert(query.subrange(query.len() as int, query.len() as int) =~= Seq::<(Seq<char>, Seq<char>)>::empty());
        assert(query.subrange(0, query.len() as int) =~= query);
        Ok((url, text))
    }

    /// The URL to fetch, allowing only `https`.
    pub fn url(&self) -> (r: Result<(url::Url, String), EnvironmentError>)
        ensures
            blank(self.endpoint@) ==> r == Err::<(url::Url, String), EnvironmentError>(
                EnvironmentError::ProviderNotConfigured,
            ),
            !blank(self.endpoint@) ==> match url_parse_outcome(self.endpoint@) {
                Err(m) => r matches Err(EnvironmentError::InvalidEndpoint(x)) && x@ == m,
                Ok((scheme, host, serial)) => if scheme == "https"@ && host {
                    match url_with_pairs(serial, request_query(*self)) {
                        Some(t) => r matches Ok((_, text)) && text@ == t,
                        None => r matches Err(EnvironmentError::InvalidEndpoint(x)) && x@
                            == unextendable_endpoint_message(),
                    }
                } else {
                    r matches Err(EnvironmentError::InvalidEndpoint(x)) && x@
                        == insecure_endpoint_message()
                },
            },
    {
        self.url_with(false)
    }
}

} // verus!
