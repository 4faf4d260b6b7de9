//! The weather data model: the provider's current-weather payload as plain
//! values, with derived facts (classified condition, title-cased
//! description, night flag, local sunrise and sunset times).
//!
//! Fractional provider fields are carried as scaled integers: temperatures
//! and wind in tenths of a unit, precipitation volumes in hundredths of a
//! millimetre.

use vstd::arithmetic::div_mod::lemma_fundamental_div_mod_converse;
use vstd::prelude::*;

use crate::condition::spec_classify;
use crate::condition::Condition;
use crate::text::push_char;
use crate::text::push_two_digits;
use crate::text::title_case_words;
use crate::text::title_cased;
use crate::text::two_digits;

verus! {

/// One weather entry of the payload: the numeric condition code and its
/// human-readable description.
#[derive(Clone, Debug, PartialEq)]
pub struct Desc {
    pub id: u16,
    pub description: String,
}

/// Temperature block, in tenths of a degree Celsius; pressure in hPa and
/// humidity in percent as whole numbers.
#[derive(Clone, Copy, Debug, PartialEq)]
pub struct Temperatures {
    pub temp: i32,
    pub feels_like: i32,
    pub temp_min: i32,
    pub temp_max: i32,
    pub pressure: isize,
    pub humidity: isize,
}

/// Wind speed in tenths of a metre per second and direction in tenths of a
/// degree.
#[derive(Clone, Copy, Debug, PartialEq)]
pub struct Wind {
    pub speed: i32,
    pub degree: i32,
}

/// Cloud cover in percent.
#[derive(Clone, Copy, Debug, PartialEq)]
pub struct Clouds {
    pub all: u8,
}

/// Precipitation volumes over one and three hours, in hundredths of a
/// millimetre.
#[derive(Clone, Copy, Debug, PartialEq)]
pub struct RainSnowVolume {
    pub one_hour: Option<i32>,
    pub three_hour: Option<i32>,
}

/// Sunrise and sunset as unix timestamps in seconds.
#[derive(Clone, Copy, Debug, PartialEq)]
pub struct Times {
    pub sunrise: i64,
    pub sunset: i64,
}

/// The current weather at one location, as the provider reports it.
#[derive(Clone, Debug, PartialEq)]
pub struct LocationWeather {
    pub descriptions: Vec<Desc>,
    pub temperature: Temperatures,
    pub visibility: Option<usize>,
    pub wind: Wind,
    pub clouds: Option<Clouds>,
    pub rain: Option<RainSnowVolume>,
    pub snow: Option<RainSnowVolume>,
    pub current_time: i64,
    pub times: Times,
    pub timezone_offset: i64,
}

/// The time of day of a timestamp, as seconds since local midnight.
pub open spec fn seconds_of_day(secs: int) -> int {
    secs % 86400
}

/// The "HH:MM" rendering of a timestamp's time of day.
pub open spec fn spec_hh_mm(secs: int) -> Seq<char> {
    let tod = seconds_of_day(secs);
    two_digits(tod / 3600) + seq![':'] + two_digits((tod % 3600) / 60)
}

/// Seconds since midnight of the day the timestamp falls in.
fn time_of_day(secs: i64) -> (r: i64)
    ensures
        r == seconds_of_day(secs as int),
        0 <= r < 86400,
{
    if secs >= 0 {
        let r = ((secs as u64) % 86400) as i64;
        proof {
            assert(r == (secs as int) % 86400);
        }
        r
    } else {
        let k: i64 = -(secs + 1);
        let m: i64 = ((k as u64) % 86400) as i64;
        let r: i64 = 86399 - m;
        proof {
            let q = (k as int) / 86400;
            assert(k as int == 86400 * q + m) by {
                assert(m == (k as int) % 86400);
            };
            assert(secs as int == (-q - 1) * 86400 + (86399 - m)) by {
                assert(secs as int == -(k as int) - 1);
            };
            lemma_fundamental_div_mod_converse(secs as int, 86400, -q - 1, 86399 - m);
        }
        r
    }
}

/// Renders a timestamp's time of day as zero-padded "HH:MM".
pub fn format_hh_mm(secs: i64) -> (r: String)
    ensures
        r@ == spec_hh_mm(secs as int),
{
    let tod = time_of_day(secs);
    let hh = (tod / 3600) as u64;
    let mm = ((tod % 3600) / 60) as u64;
    let mut out = String::new();
    push_two_digits(&mut out, hh);
    push_char(&mut out, ':');
    push_two_digits(&mut out, mm);
    proof {
        assert(out@ =~= spec_hh_mm(secs as int));
    }
    out
}

impl LocationWeather {
    /// The condition code of the first weather entry, if there is one.
    pub open spec fn spec_condition_code(&self) -> Option<u16> {
        if self.descriptions@.len() == 0 {
            None
        } else {
            Some(self.descriptions@[0].id)
        }
    }

    /// The classified condition of the first weather entry: nothing when
    /// the payload has no entry or its code is in no table.
    pub open spec fn spec_condition(&self) -> Option<Condition> {
        match self.spec_condition_code() {
            Some(code) => spec_classify(code),
            None => None,
        }
    }

    /// The raw description text of the first weather entry, or empty.
    pub open spec fn spec_raw_description(&self) -> Seq<char> {
        if self.descriptions@.len() == 0 {
            Seq::empty()
        } else {
            self.descriptions@[0].description@
        }
    }

    /// Classifies the first weather entry's code, if it is classifiable.
    pub fn condition(&self) -> (r: Option<Condition>)
        ensures
            r == self.spec_condition(),
    {
        if self.descriptions.len() > 0 {
            Condition::from(self.descriptions[0].id)
        } else {
            None
        }
    }

    /// The classified condition; callers must know the payload is
    /// classifiable.
    pub fn id(&self) -> (r: Condition)
        requires
            self.spec_condition() is Some,
        ensures
            Some(r) == self.spec_condition(),
    {
        self.condition().unwrap()
    }

    /// The first weather entry's description, title-cased word by word.
    pub fn description(&self) -> (r: String)
        ensures
            r@ == title_cased(self.spec_raw_description(), true),
    {
        if self.descriptions.len() > 0 {
            title_case_words(self.descriptions[0].description.as_str())
        } else {
            String::new()
        }
    }

    /// Sunrise shifted into the location's own clock.
    pub open spec fn local_sunrise(&self) -> int {
        self.times.sunrise + self.timezone_offset
    }

    /// Sunset shifted into the location's own clock.
    pub open spec fn local_sunset(&self) -> int {
        self.times.sunset + self.timezone_offset
    }

    /// Local sunrise as "HH:MM".
    pub fn sun_rise_time(&self) -> (r: String)
        requires
            i64::MIN <= self.local_sunrise() <= i64::MAX,
        ensures
            r@ == spec_hh_mm(self.local_sunrise()),
    {
        format_hh_mm(self.times.sunrise + self.timezone_offset)
    }

    /// Local sunset as "HH:MM".
    pub fn sun_set_time(&self) -> (r: String)
        requires
            i64::MIN <= self.local_sunset() <= i64::MAX,
        ensures
            r@ == spec_hh_mm(self.local_sunset()),
    {
        format_hh_mm(self.times.sunset + self.timezone_offset)
    }

    /// Whether the observation lies outside the day's sunlit interval.
    pub open spec fn spec_is_night(&self) -> bool {
        self.current_time < self.times.sunrise || self.current_time > self.times.sunset
    }

    pub fn is_night(&self) -> (r: bool)
        ensures
            r == self.spec_is_night(),
    {
        self.current_time < self.times.sunrise || self.current_time > self.times.sunset
    }
}

} // verus!
