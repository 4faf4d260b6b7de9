use weather_widget::Atmosphere;
use weather_widget::Cloud;
use weather_widget::Condition;
use weather_widget::Drizzle;
use weather_widget::Rain;
use weather_widget::Snow;
use weather_widget::Thunderstorm;

#[test]
fn it_works() {
    assert_eq!(2 + 2, 4);
}

#[test]
fn test_classify_thunderstorm_table() {
    let table = [
        (200, Thunderstorm::ThunderstormWithLightRain),
        (201, Thunderstorm::ThunderstormWithRain),
        (202, Thunderstorm::ThunderstormWithHeavyRain),
        (210, Thunderstorm::LightThunderstorm),
        (211, Thunderstorm::Thunderstorm),
        (212, Thunderstorm::HeavyThunderstorm),
        (221, Thunderstorm::RaggedThunderstorm),
        (230, Thunderstorm::ThunderstormWithLightDrizzle),
        (231, Thunderstorm::ThunderstormWithDrizzle),
        (232, Thunderstorm::ThunderstormWithHeavyDrizzle),
    ];
    for (code, variant) in table {
        assert_eq!(Condition::from(code), Some(Condition::Thunderstorm(variant)));
        assert_eq!(Thunderstorm::from(code), Some(variant));
    }
}

#[test]
fn test_classify_drizzle_table() {
    let table = [
        (300, Drizzle::LightIntensityDrizzle),
        (301, Drizzle::Drizzle),
        (302, Drizzle::HeavyIntensityDrizzle),
        (310, Drizzle::LightIntensityDrizzleRain),
        (311, Drizzle::DrizzleRain),
        (312, Drizzle::HeavyIntensityDrizzleRain),
        (313, Drizzle::ShowerRainAndDrizzle),
        (314, Drizzle::HeavyShowerRainAndDrizzle),
        (321, Drizzle::ShowerDrizzle),
    ];
    for (code, variant) in table {
        assert_eq!(Condition::from(code), Some(Condition::Drizzle(variant)));
        assert_eq!(Drizzle::from(code), Some(variant));
    }
}

#[test]
fn test_classify_rain_table() {
    let table = [
        (500, Rain::LightRain),
        (501, Rain::ModerateRain),
        (502, Rain::HeavyIntensityRain),
        (503, Rain::VeryHeavyRain),
        (504, Rain::ExtremeRain),
        (511, Rain::FreezingRain),
        (520, Rain::LightIntensityShowerRain),
        (521, Rain::ShowerRain),
        (522, Rain::HeavyIntensityShowerRain),
        (531, Rain::RaggedShowerRain),
    ];
    for (code, variant) in table {
        assert_eq!(Condition::from(code), Some(Condition::Rain(variant)));
        assert_eq!(Rain::from(code), Some(variant));
    }
}

#[test]
fn test_classify_snow_table() {
    let table = [
        (600, Snow::LightSnow),
        (601, Snow::Snow),
        (602, Snow::HeavySnow),
        (611, Snow::Sleet),
        (612, Snow::LightShowerSleet),
        (613, Snow::ShowerSleet),
        (615, Snow::LightRainAndSnow),
        (616, Snow::RainAndSnow),
        (620, Snow::LightShowerSnow),
        (621, Snow::ShowerSnow),
        (622, Snow::HeavyShowerSnow),
    ];
    for (code, variant) in table {
        assert_eq!(Condition::from(code), Some(Condition::Snow(variant)));
        assert_eq!(Snow::from(code), Some(variant));
    }
}

#[test]
fn test_classify_atmosphere_table() {
    let table = [
        (701, Atmosphere::Mist),
        (711, Atmosphere::Smoke),
        (721, Atmosphere::Haze),
        (731, Atmosphere::SandWhirls),
        (741, Atmosphere::Fog),
        (751, Atmosphere::Sand),
        (761, Atmosphere::Dust),
        (762, Atmosphere::VolcanicAsh),
        (771, Atmosphere::Squalls),
        (781, Atmosphere::Tornado),
    ];
    for (code, variant) in table {
        assert_eq!(Condition::from(code), Some(Condition::Atmosphere(variant)));
        assert_eq!(Atmosphere::from(code), Some(variant));
    }
}

#[test]
fn test_classify_cloud_table() {
    let table = [
        (800, Cloud::Clear),
        (801, Cloud::FewClouds),
        (802, Cloud::ScatteredClouds),
        (803, Cloud::BrokenClouds),
        (804, Cloud::OvercastClouds),
    ];
    for (code, variant) in table {
        assert_eq!(Condition::from(code), Some(Condition::Cloud(variant)));
        assert_eq!(Cloud::from(code), Some(variant));
    }
}

#[test]
fn test_classify_rejects_codes_outside_every_table() {
    for code in [0, 1, 100, 199, 401, 450, 900, 1000, 65535] {
        assert_eq!(Condition::from(code), None);
    }
}

#[test]
fn test_classify_rejects_gaps_inside_family_ranges() {
    // Values inside a family's numeric range that are in no table.
    for code in [203, 209, 233, 299, 303, 315, 322, 505, 512, 530, 603, 614, 623, 702, 703, 730, 742, 763, 780, 782, 805, 899] {
        assert_eq!(Condition::from(code), None);
    }
}
