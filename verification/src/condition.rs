//! The weather-condition taxonomy: a closed set of categories, each with a
//! fixed enumeration of exact provider codes, and the total classification
//! function from a raw numeric code into that taxonomy.

use vstd::prelude::*;

verus! {

#[derive(Clone, Copy, PartialEq, Eq, Structural, Debug)]
pub enum Thunderstorm {
    ThunderstormWithLightRain,
    ThunderstormWithRain,
    ThunderstormWithHeavyRain,
    LightThunderstorm,
    Thunderstorm,
    HeavyThunderstorm,
    RaggedThunderstorm,
    ThunderstormWithLightDrizzle,
    ThunderstormWithDrizzle,
    ThunderstormWithHeavyDrizzle,
}

#[derive(Clone, Copy, PartialEq, Eq, Structural, Debug)]
pub enum Drizzle {
    LightIntensityDrizzle,
    Drizzle,
    HeavyIntensityDrizzle,
    LightIntensityDrizzleRain,
    DrizzleRain,
    HeavyIntensityDrizzleRain,
    ShowerRainAndDrizzle,
    HeavyShowerRainAndDrizzle,
    ShowerDrizzle,
}

#[derive(Clone, Copy, PartialEq, Eq, Structural, Debug)]
pub enum Rain {
    LightRain,
    ModerateRain,
    HeavyIntensityRain,
    VeryHeavyRain,
    ExtremeRain,
    FreezingRain,
    LightIntensityShowerRain,
    ShowerRain,
    HeavyIntensityShowerRain,
    RaggedShowerRain,
}

#[derive(Clone, Copy, PartialEq, Eq, Structural, Debug)]
pub enum Snow {
    LightSnow,
    Snow,
    HeavySnow,
    Sleet,
    LightShowerSleet,
    ShowerSleet,
    LightRainAndSnow,
    RainAndSnow,
    LightShowerSnow,
    ShowerSnow,
    HeavyShowerSnow,
}

#[derive(Clone, Copy, PartialEq, Eq, Structural, Debug)]
pub enum Atmosphere {
    Mist,
    Smoke,
    Haze,
    SandWhirls,
    Fog,
    Sand,
    Dust,
    VolcanicAsh,
    Squalls,
    Tornado,
}

#[derive(Clone, Copy, PartialEq, Eq, Structural, Debug)]
pub enum Cloud {
    Clear,
    FewClouds,
    ScatteredClouds,
    BrokenClouds,
    OvercastClouds,
}

#[derive(Clone, Copy, PartialEq, Eq, Structural, Debug)]
pub enum Condition {
    Thunderstorm(Thunderstorm),
    Drizzle(Drizzle),
    Rain(Rain),
    Snow(Snow),
    Atmosphere(Atmosphere),
    Cloud(Cloud),
}

/// The exact code table of the thunderstorm category.
pub open spec fn spec_thunderstorm(code: u16) -> Option<Thunderstorm> {
    if code == 200 {
        Some(Thunderstorm::ThunderstormWithLightRain)
    } else if code == 201 {
        Some(Thunderstorm::ThunderstormWithRain)
    } else if code == 202 {
        Some(Thunderstorm::ThunderstormWithHeavyRain)
    } else if code == 210 {
        Some(Thunderstorm::LightThunderstorm)
    } else if code == 211 {
        Some(Thunderstorm::Thunderstorm)
    } else if code == 212 {
        Some(Thunderstorm::HeavyThunderstorm)
    } else if code == 221 {
        Some(Thunderstorm::RaggedThunderstorm)
    } else if code == 230 {
        Some(Thunderstorm::ThunderstormWithLightDrizzle)
    } else if code == 231 {
        Some(Thunderstorm::ThunderstormWithDrizzle)
    } else if code == 232 {
        Some(Thunderstorm::ThunderstormWithHeavyDrizzle)
    } else {
        None
    }
}

/// The exact code table of the drizzle category.
pub open spec fn spec_drizzle(code: u16) -> Option<Drizzle> {
    if code == 300 {
        Some(Drizzle::LightIntensityDrizzle)
    } else if code == 301 {
        Some(Drizzle::Drizzle)
    } else if code == 302 {
        Some(Drizzle::HeavyIntensityDrizzle)
    } else if code == 310 {
        Some(Drizzle::LightIntensityDrizzleRain)
    } else if code == 311 {
        Some(Drizzle::DrizzleRain)
    } else if code == 312 {
        Some(Drizzle::HeavyIntensityDrizzleRain)
    } else if code == 313 {
        Some(Drizzle::ShowerRainAndDrizzle)
    } else if code == 314 {
        Some(Drizzle::HeavyShowerRainAndDrizzle)
    } else if code == 321 {
        Some(Drizzle::ShowerDrizzle)
    } else {
        None
    }
}

/// The exact code table of the rain category.
pub open spec fn spec_rain(code: u16) -> Option<Rain> {
    if code == 500 {
        Some(Rain::LightRain)
    } else if code == 501 {
        Some(Rain::ModerateRain)
    } else if code == 502 {
        Some(Rain::HeavyIntensityRain)
    } else if code == 503 {
        Some(Rain::VeryHeavyRain)
    } else if code == 504 {
        Some(Rain::ExtremeRain)
    } else if code == 511 {
        Some(Rain::FreezingRain)
    } else if code == 520 {
        Some(Rain::LightIntensityShowerRain)
    } else if code == 521 {
        Some(Rain::ShowerRain)
    } else if code == 522 {
        Some(Rain::HeavyIntensityShowerRain)
    } else if code == 531 {
        Some(Rain::RaggedShowerRain)
    } else {
        None
    }
}

/// The exact code table of the snow category.
pub open spec fn spec_snow(code: u16) -> Option<Snow> {
    if code == 600 {
        Some(Snow::LightSnow)
    } else if code == 601 {
        Some(Snow::Snow)
    } else if code == 602 {
        Some(Snow::HeavySnow)
    } else if code == 611 {
        Some(Snow::Sleet)
    } else if code == 612 {
        Some(Snow::LightShowerSleet)
    } else if code == 613 {
        Some(Snow::ShowerSleet)
    } else if code == 615 {
        Some(Snow::LightRainAndSnow)
    } else if code == 616 {
        Some(Snow::RainAndSnow)
    } else if code == 620 {
        Some(Snow::LightShowerSnow)
    } else if code == 621 {
        Some(Snow::ShowerSnow)
    } else if code == 622 {
        Some(Snow::HeavyShowerSnow)
    } else {
        None
    }
}

/// The exact code table of the atmosphere category; the family is sparse
/// (for instance nothing between 702 and 710).
pub open spec fn spec_atmosphere(code: u16) -> Option<Atmosphere> {
    if code == 701 {
        Some(Atmosphere::Mist)
    } else if code == 711 {
        Some(Atmosphere::Smoke)
    } else if code == 721 {
        Some(Atmosphere::Haze)
    } else if code == 731 {
        Some(Atmosphere::SandWhirls)
    } else if code == 741 {
        Some(Atmosphere::Fog)
    } else if code == 751 {
        Some(Atmosphere::Sand)
    } else if code == 761 {
        Some(Atmosphere::Dust)
    } else if code == 762 {
        Some(Atmosphere::VolcanicAsh)
    } else if code == 771 {
        Some(Atmosphere::Squalls)
    } else if code == 781 {
        Some(Atmosphere::Tornado)
    } else {
        None
    }
}

/// The exact code table of the cloud category.
pub open spec fn spec_cloud(code: u16) -> Option<Cloud> {
    if code == 800 {
        Some(Cloud::Clear)
    } else if code == 801 {
        Some(Cloud::FewClouds)
    } else if code == 802 {
        Some(Cloud::ScatteredClouds)
    } else if code == 803 {
        Some(Cloud::BrokenClouds)
    } else if code == 804 {
        Some(Cloud::OvercastClouds)
    } else {
        None
    }
}

/// What a raw provider code classifies to: exactly one condition for each
/// code listed in one of the category tables, and nothing for every other
/// integer (including unlisted codes inside a family's numeric range).
pub open spec fn spec_classify(code: u16) -> Option<Condition> {
    if code / 100 == 2 {
        match spec_thunderstorm(code) {
            Some(t) => Some(Condition::Thunderstorm(t)),
            None => None,
        }
    } else if code / 100 == 3 {
        match spec_drizzle(code) {
            Some(d) => Some(Condition::Drizzle(d)),
            None => None,
        }
    } else if code / 100 == 5 {
        match spec_rain(code) {
            Some(r) => Some(Condition::Rain(r)),
            None => None,
        }
    } else if code / 100 == 6 {
        match spec_snow(code) {
            Some(s) => Some(Condition::Snow(s)),
            None => None,
        }
    } else if code / 100 == 7 {
        match spec_atmosphere(code) {
            Some(a) => Some(Condition::Atmosphere(a)),
            None => None,
        }
    } else if code / 100 == 8 {
        match spec_cloud(code) {
            Some(c) => Some(Condition::Cloud(c)),
            None => None,
        }
    } else {
        None
    }
}

impl Thunderstorm {
    pub fn from(raw_value: u16) -> (r: Option<Self>)
        ensures
            r == spec_thunderstorm(raw_value),
    {
        match raw_value {
            200 => Some(Thunderstorm::ThunderstormWithLightRain),
            201 => Some(Thunderstorm::ThunderstormWithRain),
            202 => Some(Thunderstorm::ThunderstormWithHeavyRain),
            210 => Some(Thunderstorm::LightThunderstorm),
            211 => Some(Thunderstorm::Thunderstorm),
            212 => Some(Thunderstorm::HeavyThunderstorm),
            221 => Some(Thunderstorm::RaggedThunderstorm),
            230 => Some(Thunderstorm::ThunderstormWithLightDrizzle),
            231 => Some(Thunderstorm::ThunderstormWithDrizzle),
            232 => Some(Thunderstorm::ThunderstormWithHeavyDrizzle),
            _ => None,
        }
    }
}

impl Drizzle {
    pub fn from(raw_value: u16) -> (r: Option<Self>)
        ensures
            r == spec_drizzle(raw_value),
    {
        match raw_value {
            300 => Some(Drizzle::LightIntensityDrizzle),
            301 => Some(Drizzle::Drizzle),
            302 => Some(Drizzle::HeavyIntensityDrizzle),
            310 => Some(Drizzle::LightIntensityDrizzleRain),
            311 => Some(Drizzle::DrizzleRain),
            312 => Some(Drizzle::HeavyIntensityDrizzleRain),
            313 => Some(Drizzle::ShowerRainAndDrizzle),
            314 => Some(Drizzle::HeavyShowerRainAndDrizzle),
            321 => Some(Drizzle::ShowerDrizzle),
            _ => None,
        }
    }
}

impl Rain {
    pub fn from(raw_value: u16) -> (r: Option<Self>)
        ensures
            r == spec_rain(raw_value),
    {
        match raw_value {
            500 => Some(Rain::LightRain),
            501 => Some(Rain::ModerateRain),
            502 => Some(Rain::HeavyIntensityRain),
            503 => Some(Rain::VeryHeavyRain),
            504 => Some(Rain::ExtremeRain),
            511 => Some(Rain::FreezingRain),
            520 => Some(Rain::LightIntensityShowerRain),
            521 => Some(Rain::ShowerRain),
            522 => Some(Rain::HeavyIntensityShowerRain),
            531 => Some(Rain::RaggedShowerRain),
            _ => None,
        }
    }
}

impl Snow {
    pub fn from(raw_value: u16) -> (r: Option<Self>)
        ensures
            r == spec_snow(raw_value),
    {
        match raw_value {
            600 => Some(Snow::LightSnow),
            601 => Some(Snow::Snow),
            602 => Some(Snow::HeavySnow),
            611 => Some(Snow::Sleet),
            612 => Some(Snow::LightShowerSleet),
            613 => Some(Snow::ShowerSleet),
            615 => Some(Snow::LightRainAndSnow),
            616 => Some(Snow::RainAndSnow),
            620 => Some(Snow::LightShowerSnow),
            621 => Some(Snow::ShowerSnow),
            622 => Some(Snow::HeavyShowerSnow),
            _ => None,
        }
    }
}

impl Atmosphere {
    pub fn from(raw_value: u16) -> (r: Option<Self>)
        ensures
            r == spec_atmosphere(raw_value),
    {
        match raw_value {
            701 => Some(Atmosphere::Mist),
            711 => Some(Atmosphere::Smoke),
            721 => Some(Atmosphere::Haze),
            731 => Some(Atmosphere::SandWhirls),
            741 => Some(Atmosphere::Fog),
            751 => Some(Atmosphere::Sand),
            761 => Some(Atmosphere::Dust),
            762 => Some(Atmosphere::VolcanicAsh),
            771 => Some(Atmosphere::Squalls),
            781 => Some(Atmosphere::Tornado),
            _ => None,
        }
    }
}

impl Cloud {
    pub fn from(raw_value: u16) -> (r: Option<Self>)
        ensures
            r == spec_cloud(raw_value),
    {
        match raw_value {
            800 => Some(Cloud::Clear),
            801 => Some(Cloud::FewClouds),
            802 => Some(Cloud::ScatteredClouds),
            803 => Some(Cloud::BrokenClouds),
            804 => Some(Cloud::OvercastClouds),
            _ => None,
        }
    }
}

impl Condition {
    /// Classify a raw provider code. Returns exactly one condition for each
    /// code in the published tables and nothing for any other integer.
    pub fn from(raw_value: u16) -> (r: Option<Self>)
        ensures
            r == spec_classify(raw_value),
    {
        match raw_value / 100 {
            2 => match Thunderstorm::from(raw_value) {
                Some(t) => Some(Condition::Thunderstorm(t)),
                None => None,
            },
            3 => match Drizzle::from(raw_value) {
                Some(d) => Some(Condition::Drizzle(d)),
                None => None,
            },
            5 => match Rain::from(raw_value) {
                Some(r) => Some(Condition::Rain(r)),
                None => None,
            },
            6 => match Snow::from(raw_value) {
                Some(s) => Some(Condition::Snow(s)),
                None => None,
            },
            7 => match Atmosphere::from(raw_value) {
                Some(a) => Some(Condition::Atmosphere(a)),
                None => None,
            },
            8 => match Cloud::from(raw_value) {
                Some(c) => Some(Condition::Cloud(c)),
                None => None,
            },
            _ => None,
        }
    }
}

} // verus!
