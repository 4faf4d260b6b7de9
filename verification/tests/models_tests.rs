use weather_widget::Clouds;
use weather_widget::Condition;
use weather_widget::Desc;
use weather_widget::LocationWeather;
use weather_widget::RainSnowVolume;
use weather_widget::Temperatures;
use weather_widget::Thunderstorm;
use weather_widget::Times;
use weather_widget::Wind;

fn payload(code: u16, description: &str) -> LocationWeather {
    LocationWeather {
        descriptions: vec![Desc { id: code, description: String::from(description) }],
        temperature: Temperatures {
            temp: 251,
            feels_like: 249,
            temp_min: 240,
            temp_max: 260,
            pressure: 1013,
            humidity: 40,
        },
        visibility: Some(10000),
        wind: Wind { speed: 31, degree: 2400 },
        clouds: Some(Clouds { all: 20 }),
        rain: Some(RainSnowVolume { one_hour: Some(25), three_hour: None }),
        snow: None,
        current_time: 1_600_000_000,
        times: Times { sunrise: 1_599_980_000, sunset: 1_600_020_000 },
        timezone_offset: 0,
    }
}

#[test]
fn test_condition_classifies_first_entry() {
    let w = payload(200, "thunderstorm with light rain");
    assert_eq!(
        w.condition(),
        Some(Condition::Thunderstorm(Thunderstorm::ThunderstormWithLightRain))
    );
    assert_eq!(
        w.id(),
        Condition::Thunderstorm(Thunderstorm::ThunderstormWithLightRain)
    );
}

#[test]
fn test_condition_of_unlisted_code_is_absent() {
    let w = payload(999, "whatever");
    assert_eq!(w.condition(), None);
    let mut empty = payload(200, "x");
    empty.descriptions = vec![];
    assert_eq!(empty.condition(), None);
}

#[test]
fn test_description_title_cases_each_word() {
    let w = payload(200, "thunderstorm with light rain");
    assert_eq!(w.description(), "Thunderstorm With Light Rain");
}

#[test]
fn test_description_collapses_whitespace() {
    let w = payload(300, "  light\tintensity   drizzle ");
    assert_eq!(w.description(), "Light Intensity Drizzle");
    let empty = payload(300, "");
    assert_eq!(empty.description(), "");
}

#[test]
fn test_is_night_outside_sunlit_interval() {
    let mut w = payload(800, "clear sky");
    assert!(!w.is_night());
    w.current_time = w.times.sunrise - 1;
    assert!(w.is_night());
    w.current_time = w.times.sunset + 1;
    assert!(w.is_night());
    w.current_time = w.times.sunset;
    assert!(!w.is_night());
}

#[test]
fn test_sun_times_are_local_and_zero_padded() {
    let mut w = payload(800, "clear sky");
    // 100 days plus 06:30:00 since the epoch.
    w.times.sunrise = 86400 * 100 + 6 * 3600 + 30 * 60;
    // Same day at 19:05:07.
    w.times.sunset = 86400 * 100 + 19 * 3600 + 5 * 60 + 7;
    w.timezone_offset = 0;
    assert_eq!(w.sun_rise_time(), "06:30");
    assert_eq!(w.sun_set_time(), "19:05");
    // The offset shifts the clock.
    w.timezone_offset = 3600;
    assert_eq!(w.sun_rise_time(), "07:30");
    // A negative timestamp still reads as a time of day.
    w.times.sunrise = -1;
    w.timezone_offset = 0;
    assert_eq!(w.sun_rise_time(), "23:59");
}
