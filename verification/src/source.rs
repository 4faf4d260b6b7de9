//! The weather providers: which endpoint serves a location, whether the
//! provider answers cross-origin calls, and the relay prefix used when it
//! does not.

use vstd::prelude::*;

use crate::text::dec_rep;
use crate::text::push_decimal;

verus! {

/// A weather data provider.
pub enum Source {
    MetaWeather,
    OpenWeather,
}

/// The relay-prefixed form of a URL, for providers without cross-origin
/// support.
pub open spec fn spec_proxy(url: Seq<char>) -> Seq<char> {
    "https://cors-anywhere.herokuapp.com/"@ + url
}

/// Prefixes the fixed relay origin to a URL.
pub fn proxy(url: &str) -> (r: String)
    ensures
        r@ == spec_proxy(url@),
{
    let mut proxied = String::from_str("https://cors-anywhere.herokuapp.com/");
    proxied.append(url);
    proxied
}

/// MetaWeather's by-woeid endpoint.
pub open spec fn spec_weather_url(woeid: u64) -> Seq<char> {
    "https://www.metaweather.com/api/location/"@ + dec_rep(woeid as nat)
}

/// The open-weather provider's by-id endpoint, with the caller's API key.
pub open spec fn spec_weather_url_by_id(id: usize, api_key: Seq<char>) -> Seq<char> {
    "https://api.openweathermap.org/data/2.5/weather?id="@ + dec_rep(id as nat) + "&appid="@
        + api_key + "&units=metric"@
}

impl Source {
    pub open spec fn spec_support_cors(&self) -> bool {
        match self {
            Source::MetaWeather => false,
            Source::OpenWeather => true,
        }
    }

    /// The by-woeid endpoint; only MetaWeather has one.
    pub fn weather_url(&self, woeid: u64) -> (r: String)
        requires
            self is MetaWeather,
        ensures
            r@ == spec_weather_url(woeid),
    {
        let mut url = String::from_str("https://www.metaweather.com/api/location/");
        push_decimal(&mut url, woeid);
        url
    }

    /// The by-id endpoint with the given API key; only the open-weather
    /// provider has one.
    pub fn weather_url_by_id(&self, id: usize, api_key: &str) -> (r: String)
        requires
            self is OpenWeather,
        ensures
            r@ == spec_weather_url_by_id(id, api_key@),
    {
        let mut url = String::from_str("https://api.openweathermap.org/data/2.5/weather?id=");
        push_decimal(&mut url, id as u64);
        url.append("&appid=");
        url.append(api_key);
        url.append("&units=metric");
        proof {
            assert(url@ =~= spec_weather_url_by_id(id, api_key@));
        }
        url
    }

    pub fn support_cors(&self) -> (r: bool)
        ensures
            r == self.spec_support_cors(),
    {
        match self {
            Source::MetaWeather => false,
            Source::OpenWeather => true,
        }
    }

    /// The URL the fetch client requests for a location id: the endpoint
    /// itself where the provider answers cross-origin calls, else its
    /// relay-prefixed form.
    pub fn fetch_url(&self, id: usize, api_key: &str) -> (r: String)
        requires
            self is OpenWeather,
        ensures
            self.spec_support_cors() ==> r@ == spec_weather_url_by_id(id, api_key@),
            !self.spec_support_cors() ==> r@ == spec_proxy(spec_weather_url_by_id(id, api_key@)),
    {
        if self.support_cors() {
            self.weather_url_by_id(id, api_key)
        } else {
            let url = self.weather_url_by_id(id, api_key);
            proxy(url.as_str())
        }
    }
}

} // verus!
