//! The render model: the data snapshot handed to the view layer. The
//! board is built from one fetched weather payload and replaced wholesale
//! on the next successful fetch.

use vstd::prelude::*;

use crate::condition::Condition;
use crate::models::spec_hh_mm;
use crate::models::LocationWeather;
use crate::resources::animation;
use crate::resources::icon;
use crate::resources::spec_animation;
use crate::resources::spec_icon;

verus! {

/// The background video of the board.
#[derive(Debug, PartialEq)]
pub struct WeatherBackground {
    pub source_video: String,
}

impl WeatherBackground {
    /// The video for a classified condition; the name is a pure function
    /// of the inputs (feels-like in tenths of a degree).
    pub fn new(weather_condition: Condition, is_night: bool, feels_like: i32, portrait: bool) -> (r:
        Option<Self>)
        ensures
            r matches Some(b) && b.source_video@ == spec_animation(
                weather_condition,
                is_night,
                feels_like,
                portrait,
            ),
    {
        match animation(weather_condition, is_night, feels_like, portrait) {
            Some(source_video) => Some(WeatherBackground { source_video }),
            None => None,
        }
    }
}

/// The icon image of the today panel.
#[derive(Debug, PartialEq)]
pub struct WeatherIcon {
    pub image_source: String,
}

impl WeatherIcon {
    /// The icon for a classified condition; the name is a pure function
    /// of the inputs (feels-like in tenths of a degree).
    pub fn new(weather_condition: Condition, is_night: bool, feels_like: i32) -> (r: Option<Self>)
        ensures
            r matches Some(ic) && ic.image_source@ == spec_icon(
                weather_condition,
                is_night,
                feels_like,
            ),
    {
        match icon(weather_condition, is_night, feels_like) {
            Some(image_source) => Some(WeatherIcon { image_source }),
            None => None,
        }
    }
}

/// The today panel: location title, icon, the raw payload the table rows
/// read, and the formatted sun times.
#[derive(Debug, PartialEq)]
pub struct WeatherToday {
    pub title: String,
    pub icon: Option<WeatherIcon>,
    pub weather: LocationWeather,
    pub sun_rise_time: String,
    pub sun_set_time: String,
}

/// The whole board: background video (absent when the condition is
/// unclassifiable) and the today panel.
#[derive(Debug, PartialEq)]
pub struct WeatherBoard {
    pub background: Option<WeatherBackground>,
    pub today: WeatherToday,
}

/// What a board built from `(title, weather, portrait)` holds: the title
/// and payload as given, the formatted local sun times, and media names
/// from the decision tables — or no media at all when the payload's code
/// is in no table.
pub open spec fn is_board_for(
    b: WeatherBoard,
    title: Seq<char>,
    weather: LocationWeather,
    portrait: bool,
) -> bool {
    &&& b.today.title@ == title
    &&& b.today.weather == weather
    &&& b.today.sun_rise_time@ == spec_hh_mm(weather.local_sunrise())
    &&& b.today.sun_set_time@ == spec_hh_mm(weather.local_sunset())
    &&& match weather.spec_condition() {
        Some(c) => {
            &&& b.background matches Some(bg) && bg.source_video@ == spec_animation(
                c,
                weather.spec_is_night(),
                weather.temperature.feels_like,
                portrait,
            )
            &&& b.today.icon matches Some(ic) && ic.image_source@ == spec_icon(
                c,
                weather.spec_is_night(),
                weather.temperature.feels_like,
            )
        },
        None => b.background is None && b.today.icon is None,
    }
}

impl WeatherBoard {
    /// Builds the board for one fetched payload. An unclassifiable
    /// condition code yields a board without media, not a default image.
    pub fn new(title: String, weather: LocationWeather, portrait: bool) -> (r: Self)
        requires
            i64::MIN <= weather.local_sunrise() <= i64::MAX,
            i64::MIN <= weather.local_sunset() <= i64::MAX,
        ensures
            is_board_for(r, title@, weather, portrait),
    {
        let condition = weather.condition();
        let is_night = weather.is_night();
        let feels_like = weather.temperature.feels_like;
        let background = match condition {
            Some(c) => WeatherBackground::new(c, is_night, feels_like, portrait),
            None => None,
        };
        let icon = match condition {
            Some(c) => WeatherIcon::new(c, is_night, feels_like),
            None => None,
        };
        let sun_rise_time = weather.sun_rise_time();
        let sun_set_time = weather.sun_set_time();
        WeatherBoard {
            background,
            today: WeatherToday { title, icon, weather, sun_rise_time, sun_set_time },
        }
    }
}

} // verus!
