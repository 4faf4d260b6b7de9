//! Mapping from a classified weather condition (plus the night flag and
//! the feels-like temperature) to deterministic media resource names: a
//! background video and an icon image.
//!
//! Temperatures are in tenths of a degree Celsius, so the clear-sky "hot"
//! threshold of 35 degrees reads as 350.

use vstd::prelude::*;

use crate::condition::Atmosphere;
use crate::condition::Cloud;
use crate::condition::Condition;
use crate::condition::Drizzle;
use crate::condition::Rain;
use crate::condition::Snow;
use crate::condition::Thunderstorm;
use crate::text::push_char;

verus! {

/// The day/night word appended to time-sensitive resource names.
pub open spec fn day_night(is_night: bool) -> Seq<char> {
    if is_night {
        "night"@
    } else {
        "day"@
    }
}

/// The base name of the background video and whether the name is
/// time-sensitive (gets a day/night suffix).
pub open spec fn spec_animation_parts(id: Condition, is_night: bool, feels_like: i32) -> (
    Seq<char>,
    bool,
) {
    match id {
        Condition::Thunderstorm(_) => ("thunderstorm"@, true),
        Condition::Drizzle(_) => ("rain"@, true),
        Condition::Rain(_) => ("rain"@, true),
        Condition::Snow(_) => ("snow"@, true),
        Condition::Atmosphere(atmosphere) => match atmosphere {
            Atmosphere::VolcanicAsh => ("thunderstorm"@, true),
            Atmosphere::Squalls => ("thunderstorm"@, true),
            Atmosphere::Tornado => ("thunderstorm"@, true),
            Atmosphere::Mist => ("fog"@, true),
            Atmosphere::Smoke => ("fog"@, true),
            Atmosphere::Haze => ("fog"@, true),
            Atmosphere::Fog => ("fog"@, true),
            Atmosphere::SandWhirls => ("windy"@, true),
            Atmosphere::Sand => ("windy"@, true),
            Atmosphere::Dust => ("windy"@, true),
        },
        Condition::Cloud(cloud) => match cloud {
            Cloud::Clear => if is_night {
                ("clear"@, false)
            } else if feels_like > 350 {
                ("hot"@, false)
            } else {
                ("sunny"@, false)
            },
            Cloud::FewClouds => if is_night {
                ("partly_cloud"@, true)
            } else {
                ("partly_sunny"@, false)
            },
            Cloud::ScatteredClouds => ("partly_cloud"@, true),
            Cloud::BrokenClouds => ("cloudy"@, true),
            Cloud::OvercastClouds => ("cloudy"@, true),
        },
    }
}

/// The full background video file name: a fixed prefix (with a landscape
/// marker unless the viewport is portrait), the base name, the day/night
/// suffix where the entry is time-sensitive, and the container extension.
pub open spec fn spec_animation(id: Condition, is_night: bool, feels_like: i32, portrait: bool) -> Seq<
    char,
> {
    let parts = spec_animation_parts(id, is_night, feels_like);
    "weather_"@ + (if portrait {
        Seq::<char>::empty()
    } else {
        "l_"@
    }) + parts.0 + (if parts.1 {
        seq!['_'] + day_night(is_night)
    } else {
        Seq::<char>::empty()
    }) + ".mp4"@
}

/// The base name of the icon image and whether the name is
/// time-sensitive.
pub open spec fn spec_icon_parts(id: Condition, is_night: bool, feels_like: i32) -> (
    Seq<char>,
    bool,
) {
    match id {
        Condition::Thunderstorm(thunder) => match thunder {
            Thunderstorm::LightThunderstorm => ("thunderstorm"@, false),
            Thunderstorm::Thunderstorm => ("thunderstorm"@, false),
            Thunderstorm::HeavyThunderstorm => ("thunderstorm"@, false),
            Thunderstorm::RaggedThunderstorm => ("thunderstorm"@, false),
            Thunderstorm::ThunderstormWithLightRain => ("thunderstorm_with_rain"@, true),
            Thunderstorm::ThunderstormWithRain => ("thunderstorm_with_rain"@, true),
            Thunderstorm::ThunderstormWithHeavyRain => ("thunderstorm_with_rain"@, true),
            Thunderstorm::ThunderstormWithLightDrizzle => ("thunderstorm_with_drizzle"@, true),
            Thunderstorm::ThunderstormWithDrizzle => ("thunderstorm_with_drizzle"@, true),
            Thunderstorm::ThunderstormWithHeavyDrizzle => ("thunderstorm_with_drizzle"@, true),
        },
        Condition::Drizzle(drizzle) => match drizzle {
            Drizzle::LightIntensityDrizzle => ("light_drizzle"@, true),
            Drizzle::Drizzle => ("light_drizzle"@, true),
            Drizzle::HeavyIntensityDrizzle => ("light_drizzle"@, true),
            Drizzle::LightIntensityDrizzleRain => ("light_drizzle"@, true),
            Drizzle::DrizzleRain => ("light_drizzle"@, true),
            Drizzle::HeavyIntensityDrizzleRain => ("drizzle"@, true),
            Drizzle::ShowerRainAndDrizzle => ("drizzle"@, true),
            Drizzle::HeavyShowerRainAndDrizzle => ("drizzle"@, true),
            Drizzle::ShowerDrizzle => ("drizzle"@, true),
        },
        Condition::Rain(rain) => match rain {
            Rain::LightRain => if is_night {
                ("light_rain"@, true)
            } else {
                ("rain"@, true)
            },
            Rain::ModerateRain => if is_night {
                ("light_rain"@, true)
            } else {
                ("rain"@, true)
            },
            Rain::LightIntensityShowerRain => if is_night {
                ("light_rain"@, true)
            } else {
                ("rain"@, true)
            },
            Rain::ShowerRain => if is_night {
                ("light_rain"@, true)
            } else {
                ("rain"@, true)
            },
            Rain::HeavyIntensityRain => ("rain"@, true),
            Rain::VeryHeavyRain => ("rain"@, true),
            Rain::ExtremeRain => ("rain"@, true),
            Rain::HeavyIntensityShowerRain => ("rain"@, true),
            Rain::RaggedShowerRain => ("rain"@, true),
            Rain::FreezingRain => ("light_shower_snow"@, false),
        },
        Condition::Snow(snow) => match snow {
            Snow::LightRainAndSnow => ("rain_snow"@, false),
            Snow::RainAndSnow => ("rain_snow"@, false),
            Snow::LightShowerSnow => ("rain_snow"@, false),
            Snow::ShowerSnow => ("rain_snow"@, false),
            Snow::HeavyShowerSnow => ("rain_snow"@, false),
            Snow::LightSnow => ("light_snow"@, true),
            Snow::Snow => ("snow"@, true),
            Snow::HeavySnow => ("heavy_snow"@, true),
            Snow::LightShowerSleet => ("light_snow_sleet"@, false),
            Snow::Sleet => ("sleet"@, false),
            Snow::ShowerSleet => ("sleet"@, false),
        },
        Condition::Atmosphere(atmosphere) => match atmosphere {
            Atmosphere::Mist => ("mist"@, false),
            Atmosphere::Smoke => ("smoke"@, false),
            Atmosphere::SandWhirls => ("smoke"@, false),
            Atmosphere::Sand => ("smoke"@, false),
            Atmosphere::Dust => ("smoke"@, false),
            Atmosphere::VolcanicAsh => ("smoke"@, false),
            Atmosphere::Squalls => ("smoke"@, false),
            Atmosphere::Fog => ("fog"@, false),
            Atmosphere::Haze => ("haze"@, true),
            Atmosphere::Tornado => ("tornado"@, false),
        },
        Condition::Cloud(cloud) => match cloud {
            Cloud::Clear => if is_night || feels_like <= 350 {
                ("clear"@, true)
            } else {
                ("hot"@, false)
            },
            Cloud::FewClouds => ("partly_clear"@, true),
            Cloud::ScatteredClouds => ("partly_cloudy"@, true),
            Cloud::BrokenClouds => ("mostly_cloudy"@, true),
            Cloud::OvercastClouds => ("cloudy"@, true),
        },
    }
}

/// The full icon file name: the base name, the day/night suffix where the
/// entry is time-sensitive, and the image extension.
pub open spec fn spec_icon(id: Condition, is_night: bool, feels_like: i32) -> Seq<char> {
    let parts = spec_icon_parts(id, is_night, feels_like);
    parts.0 + (if parts.1 {
        seq!['_'] + day_night(is_night)
    } else {
        Seq::<char>::empty()
    }) + ".png"@
}

/// The background video for a condition. The name is a pure function of
/// the inputs; the clear-sky daytime entry switches to the "hot" video
/// strictly above 35 degrees feels-like.
pub fn animation(id: Condition, is_night: bool, feels_like: i32, portrait: bool) -> (r: Option<
    String,
>)
    ensures
        r matches Some(name) && name@ == spec_animation(id, is_night, feels_like, portrait),
{
    let parts: (&str, bool) = match id {
        Condition::Thunderstorm(_) => ("thunderstorm", true),
        Condition::Drizzle(_) | Condition::Rain(_) => ("rain", true),
        Condition::Snow(_) => ("snow", true),
        Condition::Atmosphere(atmosphere) => match atmosphere {
            Atmosphere::VolcanicAsh | Atmosphere::Squalls | Atmosphere::Tornado => (
                "thunderstorm",
                true,
            ),
            Atmosphere::Mist | Atmosphere::Smoke | Atmosphere::Haze | Atmosphere::Fog => (
                "fog",
                true,
            ),
            Atmosphere::SandWhirls | Atmosphere::Sand | Atmosphere::Dust => ("windy", true),
        },
        Condition::Cloud(cloud) => match cloud {
            Cloud::Clear => {
                if is_night {
                    ("clear", false)
                } else if feels_like > 350 {
                    ("hot", false)
                } else {
                    ("sunny", false)
                }
            },
            Cloud::FewClouds => {
                if is_night {
                    ("partly_cloud", true)
                } else {
                    ("partly_sunny", false)
                }
            },
            Cloud::ScatteredClouds => ("partly_cloud", true),
            Cloud::BrokenClouds | Cloud::OvercastClouds => ("cloudy", true),
        },
    };
    let (weather, append_time_suffix) = parts;
    assert((weather@, append_time_suffix) == spec_animation_parts(id, is_night, feels_like));
    let mut video_name = String::from_str("weather_");
    if !portrait {
        video_name.append("l_");
    }
    video_name.append(weather);
    if append_time_suffix {
        push_char(&mut video_name, '_');
        if is_night {
            video_name.append("night");
        } else {
            video_name.append("day");
        }
    }
    video_name.append(".mp4");
    proof {
        assert(video_name@ =~= spec_animation(id, is_night, feels_like, portrait));
    }
    Some(video_name)
}

/// The icon image for a condition. The name is a pure function of the
/// inputs; the clear-sky entry keeps the "clear" icon at night and up to
/// 35 degrees feels-like, and switches to the "hot" icon strictly above
/// that, the same boundary the background uses.
pub fn icon(id: Condition, is_night: bool, feels_like: i32) -> (r: Option<String>)
    ensures
        r matches Some(name) && name@ == spec_icon(id, is_night, feels_like),
{
    let parts: (&str, bool) = match id {
        Condition::Thunderstorm(thunder) => match thunder {
            Thunderstorm::LightThunderstorm
            | Thunderstorm::Thunderstorm
            | Thunderstorm::HeavyThunderstorm
            | Thunderstorm::RaggedThunderstorm => ("thunderstorm", false),
            Thunderstorm::ThunderstormWithLightRain
            | Thunderstorm::ThunderstormWithRain
            | Thunderstorm::ThunderstormWithHeavyRain => ("thunderstorm_with_rain", true),
            Thunderstorm::ThunderstormWithLightDrizzle
            | Thunderstorm::ThunderstormWithDrizzle
            | Thunderstorm::ThunderstormWithHeavyDrizzle => ("thunderstorm_with_drizzle", true),
        },
        Condition::Drizzle(drizzle) => match drizzle {
            Drizzle::LightIntensityDrizzle
            | Drizzle::Drizzle
            | Drizzle::HeavyIntensityDrizzle
            | Drizzle::LightIntensityDrizzleRain
            | Drizzle::DrizzleRain => ("light_drizzle", true),
            Drizzle::HeavyIntensityDrizzleRain
            | Drizzle::ShowerRainAndDrizzle
            | Drizzle::HeavyShowerRainAndDrizzle
            | Drizzle::ShowerDrizzle => ("drizzle", true),
        },
        Condition::Rain(rain) => match rain {
            Rain::LightRain | Rain::ModerateRain | Rain::LightIntensityShowerRain
            | Rain::ShowerRain => {
                if is_night {
                    ("light_rain", true)
                } else {
                    ("rain", true)
                }
            },
            Rain::HeavyIntensityRain
            | Rain::VeryHeavyRain
            | Rain::ExtremeRain
            | Rain::HeavyIntensityShowerRain
            | Rain::RaggedShowerRain => ("rain", true),
            Rain::FreezingRain => ("light_shower_snow", false),
        },
        Condition::Snow(snow) => match snow {
            Snow::LightRainAndSnow
            | Snow::RainAndSnow
            | Snow::LightShowerSnow
            | Snow::ShowerSnow
            | Snow::HeavyShowerSnow => ("rain_snow", false),
            Snow::LightSnow => ("light_snow", true),
            Snow::Snow => ("snow", true),
            Snow::HeavySnow => ("heavy_snow", true),
            Snow::LightShowerSleet => ("light_snow_sleet", false),
            Snow::Sleet | Snow::ShowerSleet => ("sleet", false),
        },
        Condition::Atmosphere(atmosphere) => match atmosphere {
            Atmosphere::Mist => ("mist", false),
            Atmosphere::Smoke
            | Atmosphere::SandWhirls
            | Atmosphere::Sand
            | Atmosphere::Dust
            | Atmosphere::VolcanicAsh
            | Atmosphere::Squalls => ("smoke", false),
            Atmosphere::Fog => ("fog", false),
            Atmosphere::Haze => ("haze", true),
            Atmosphere::Tornado => ("tornado", false),
        },
        Condition::Cloud(cloud) => match cloud {
            Cloud::Clear => {
                if is_night || feels_like <= 350 {
                    ("clear", true)
                } else {
                    ("hot", false)
                }
            },
            Cloud::FewClouds => ("partly_clear", true),
            Cloud::ScatteredClouds => ("partly_cloudy", true),
            Cloud::BrokenClouds => ("mostly_cloudy", true),
            Cloud::OvercastClouds => ("cloudy", true),
        },
    };
    let (weather, append_time_suffix) = parts;
    assert((weather@, append_time_suffix) == spec_icon_parts(id, is_night, feels_like));
    let mut icon_name = String::new();
    icon_name.append(weather);
    if append_time_suffix {
        push_char(&mut icon_name, '_');
        if is_night {
            icon_name.append("night");
        } else {
            icon_name.append("day");
        }
    }
    icon_name.append(".png");
    proof {
        assert(icon_name@ =~= spec_icon(id, is_night, feels_like));
    }
    Some(icon_name)
}

} // verus!
