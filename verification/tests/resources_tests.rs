use weather_widget::animation;
use weather_widget::icon;
use weather_widget::Atmosphere;
use weather_widget::Cloud;
use weather_widget::Condition;
use weather_widget::Rain;
use weather_widget::Snow;
use weather_widget::Thunderstorm;

// Feels-like temperatures are in tenths of a degree Celsius: 36.0 C = 360.

#[test]
fn test_icon_thunderstorm_with_rain_day() {
    let c = Condition::from(200).unwrap();
    assert_eq!(
        icon(c, false, 200),
        Some(String::from("thunderstorm_with_rain_day.png"))
    );
}

#[test]
fn test_icon_is_referentially_transparent() {
    let c = Condition::from(800).unwrap();
    let first = icon(c, false, 400);
    let second = icon(c, false, 400);
    assert_eq!(first, second);
    let first = animation(c, true, 100, true);
    let second = animation(c, true, 100, true);
    assert_eq!(first, second);
}

#[test]
fn test_background_hot_above_threshold() {
    let c = Condition::from(800).unwrap();
    let feels_like = (36.0_f32 * 10.0).round() as i32;
    assert_eq!(animation(c, false, feels_like, true), Some(String::from("weather_hot.mp4")));
    assert_eq!(
        animation(c, false, feels_like, false),
        Some(String::from("weather_l_hot.mp4"))
    );
}

#[test]
fn test_background_sunny_at_or_below_threshold() {
    let c = Condition::from(800).unwrap();
    let feels_like = (20.0_f32 * 10.0).round() as i32;
    assert_eq!(animation(c, false, feels_like, true), Some(String::from("weather_sunny.mp4")));
    // Exactly 35.0 C stays sunny: the switch is strictly above the threshold.
    assert_eq!(animation(c, false, 350, true), Some(String::from("weather_sunny.mp4")));
}

#[test]
fn test_clear_night_ignores_temperature() {
    let c = Condition::from(800).unwrap();
    assert_eq!(animation(c, true, 400, true), Some(String::from("weather_clear.mp4")));
    assert_eq!(animation(c, true, -100, true), Some(String::from("weather_clear.mp4")));
    assert_eq!(icon(c, true, 400), Some(String::from("clear_night.png")));
}

#[test]
fn test_icon_clear_day_threshold() {
    let c = Condition::Cloud(Cloud::Clear);
    assert_eq!(icon(c, false, 349), Some(String::from("clear_day.png")));
    // Up to and at exactly 35.0 C the day icon stays the clear one; the
    // hot icon (time-invariant) starts strictly above, like the video.
    assert_eq!(icon(c, false, 350), Some(String::from("clear_day.png")));
    assert_eq!(icon(c, false, 351), Some(String::from("hot.png")));
}

#[test]
fn test_time_invariant_resources_get_no_suffix() {
    assert_eq!(
        icon(Condition::Atmosphere(Atmosphere::Tornado), true, 0),
        Some(String::from("tornado.png"))
    );
    assert_eq!(
        icon(Condition::Rain(Rain::FreezingRain), false, 0),
        Some(String::from("light_shower_snow.png"))
    );
    assert_eq!(
        icon(Condition::Snow(Snow::Sleet), true, 0),
        Some(String::from("sleet.png"))
    );
}

#[test]
fn test_time_sensitive_resources_get_suffix() {
    assert_eq!(
        icon(Condition::Atmosphere(Atmosphere::Haze), false, 0),
        Some(String::from("haze_day.png"))
    );
    assert_eq!(
        icon(Condition::Atmosphere(Atmosphere::Haze), true, 0),
        Some(String::from("haze_night.png"))
    );
    assert_eq!(
        animation(Condition::Thunderstorm(Thunderstorm::Thunderstorm), true, 0, true),
        Some(String::from("weather_thunderstorm_night.mp4"))
    );
}

#[test]
fn test_many_to_one_collapse_within_families() {
    // Every no-rain, no-drizzle thunderstorm sub-variant shares one icon.
    for v in [
        Thunderstorm::LightThunderstorm,
        Thunderstorm::Thunderstorm,
        Thunderstorm::HeavyThunderstorm,
        Thunderstorm::RaggedThunderstorm,
    ] {
        assert_eq!(
            icon(Condition::Thunderstorm(v), false, 0),
            Some(String::from("thunderstorm.png"))
        );
    }
    // The windy atmosphere sub-variants share one video.
    for v in [Atmosphere::SandWhirls, Atmosphere::Sand, Atmosphere::Dust] {
        assert_eq!(
            animation(Condition::Atmosphere(v), false, 0, true),
            Some(String::from("weather_windy_day.mp4"))
        );
    }
}

#[test]
fn test_light_rain_icon_only_at_night() {
    let c = Condition::Rain(Rain::LightRain);
    assert_eq!(icon(c, true, 0), Some(String::from("light_rain_night.png")));
    assert_eq!(icon(c, false, 0), Some(String::from("rain_day.png")));
}

#[test]
fn test_few_clouds_animation_differs_by_time() {
    let c = Condition::Cloud(Cloud::FewClouds);
    assert_eq!(animation(c, false, 0, true), Some(String::from("weather_partly_sunny.mp4")));
    assert_eq!(
        animation(c, true, 0, true),
        Some(String::from("weather_partly_cloud_night.mp4"))
    );
}
