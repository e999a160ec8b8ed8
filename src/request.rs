//! The API key and the address of the forecast request.

use vstd::prelude::*;
use vstd::utf8::encode_utf8;
use crate::percent::{append_percent_encoded, percent_encoded};

verus! {

/// Why a forecast could not be requested.
#[derive(Debug, Clone)]
pub enum WeatherError {
    /// No API key was configured.
    MissingApiKey,
    /// The request address did not parse; holds the parser's message.
    InvalidUrl(String),
}

/// Language code of the descriptions the service is asked for.
pub open spec fn language_code() -> Seq<char> {
    "sv"@
}

/// The request address for `city` in `country`: each of the three values is
/// percent-encoded (its UTF-8 bytes, see `percent_encoded`), so none of them
/// can add or alter a query parameter.
pub open spec fn request_url_text(city: Seq<char>, country: Seq<char>, api_key: Seq<char>) -> Seq<
    char,
> {
    "https://api.openweathermap.org/data/2.5/weather?q="@ + percent_encoded(encode_utf8(city))
        + ","@ + percent_encoded(encode_utf8(country)) + "&appid="@ + percent_encoded(
        encode_utf8(api_key),
    ) + "&lang="@ + language_code()
}

/// Whether `url::Url::parse` accepts the text as an absolute URL.
pub uninterp spec fn url_parses(s: Seq<char>) -> bool;

/// The text (`as_str`) of the URL that `url::Url::parse` makes of `s`.
pub uninterp spec fn url_serialization(s: Seq<char>) -> Seq<char>;

/// The message of an error.
pub open spec fn error_message(e: WeatherError) -> Seq<char> {
    match e {
        WeatherError::MissingApiKey => "API_KEY must be set."@,
        WeatherError::InvalidUrl(m) => "invalid request URL: "@ + m@,
    }
}

impl WeatherError {
    /// The message of this error, for the user.
    pub fn message(&self) -> (r: String)
        ensures
            r@ == error_message(*self),
    {
        match self {
            WeatherError::MissingApiKey => String::from_str("API_KEY must be set."),
            WeatherError::InvalidUrl(m) => {
                let mut r = String::from_str("invalid request URL: ");
                r.append(m.as_str());
                r
            },
        }
    }
}

/// Takes the configured API key, if there is one: a key that is absent is a
/// configuration error.
pub fn api_key_from(value: Option<String>) -> (r: Result<String, WeatherError>)
    ensures
        value is None <==> r == Err::<String, WeatherError>(WeatherError::MissingApiKey),
        value is Some ==> r == Ok::<String, WeatherError>(value->Some_0),
{
    match value {
        Some(key) => Ok(key),
        None => Err(WeatherError::MissingApiKey),
    }
}

/// Writes the address of the current-weather request.
pub fn request_url(city: &str, country: &str, api_key: &str) -> (r: String)
    ensures
        r@ == request_url_text(city@, country@, api_key@),
{
    let mut r = String::from_str("https://api.openweathermap.org/data/2.5/weather?q=");
    append_percent_encoded(&mut r, city);
    r.append(",");
    append_percent_encoded(&mut r, country);
    r.append("&appid=");
    append_percent_encoded(&mut r, api_key);
    r.append("&lang=");
    r.append("sv");
    r
}

/// Relies on `reqwest::Url::parse` (the `url` crate's `Url::parse`, without a
/// base or options): whether it accepts a text, and the text of the URL it
/// makes, depend on the text alone. The URL is handed on as its text
/// (`String::from`), a refusal as the parser's message.
#[verifier::external_body]
fn parse_url(s: &str) -> (r: Result<String, String>)
    ensures
        r is Ok <==> url_parses(s@),
        r is Ok ==> r->Ok_0@ == url_serialization(s@),
{
    match reqwest::Url::parse(s) {
        Ok(url) => Ok(String::from(url)),
        Err(e) => Err(e.to_string()),
    }
}

/// The checked address of the current-weather request for `city` in
/// `country`: the parser's text of `request_url_text`. It fails exactly when
/// the parser refuses that text.
pub fn forecast_url(city: &str, country: &str, api_key: &str) -> (r: Result<String, WeatherError>)
    ensures
        r is Ok <==> url_parses(request_url_text(city@, country@, api_key@)),
        r is Ok ==> r->Ok_0@ == url_serialization(request_url_text(city@, country@, api_key@)),
        r is Err ==> r->Err_0 is InvalidUrl,
{
    let text = request_url(city, country, api_key);
    match parse_url(text.as_str()) {
        Ok(url) => Ok(url),
        Err(m) => Err(WeatherError::InvalidUrl(m)),
    }
}

} // verus!
