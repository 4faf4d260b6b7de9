use weather_widget::proxy;
use weather_widget::Source;
use weather_widget::TaskManage;
use weather_widget::text::decimal_string;
use weather_widget::text::parse_decimal;
use weather_widget::text::title_case_words;

#[test]
fn test_proxy_prefixes_the_relay() {
    assert_eq!(
        proxy("https://example.com/a?b=c"),
        "https://cors-anywhere.herokuapp.com/https://example.com/a?b=c"
    );
}

#[test]
fn test_weather_url_by_id() {
    let url = Source::OpenWeather.weather_url_by_id(6167865, "SECRET-REDACTED");
    assert_eq!(
        url,
        "https://api.openweathermap.org/data/2.5/weather?id=6167865&appid=SECRET-REDACTED&units=metric"
    );
}

#[test]
fn test_weather_url_by_woeid() {
    let url = Source::MetaWeather.weather_url(4118);
    assert_eq!(url, "https://www.metaweather.com/api/location/4118");
}

#[test]
fn test_support_cors_and_fetch_url() {
    assert!(!Source::MetaWeather.support_cors());
    assert!(Source::OpenWeather.support_cors());
    // The open-weather provider answers cross-origin calls, so its fetch
    // URL is the endpoint itself, not the relay-prefixed form.
    let url = Source::OpenWeather.fetch_url(42, "k");
    assert_eq!(
        url,
        "https://api.openweathermap.org/data/2.5/weather?id=42&appid=k&units=metric"
    );
}

#[test]
fn test_task_registry_supersedes() {
    let mut tasks: TaskManage<u32> = TaskManage::default();
    assert_eq!(tasks.weather_fetch, None);
    tasks.store_weather_fetch(7);
    assert_eq!(tasks.weather_fetch, Some(7));
    tasks.store_weather_fetch(8);
    assert_eq!(tasks.weather_fetch, Some(8));
}

#[test]
fn test_decimal_rendering() {
    assert_eq!(decimal_string(0), "0");
    assert_eq!(decimal_string(7), "7");
    assert_eq!(decimal_string(90310), "90310");
    assert_eq!(decimal_string(u64::MAX), "18446744073709551615");
}

#[test]
fn test_decimal_parsing() {
    assert_eq!(parse_decimal("0"), Some(0));
    assert_eq!(parse_decimal("0042"), Some(42));
    assert_eq!(parse_decimal("6167865"), Some(6167865));
    assert_eq!(parse_decimal(""), None);
    assert_eq!(parse_decimal("12a"), None);
    assert_eq!(parse_decimal("-3"), None);
    assert_eq!(parse_decimal("+3"), None);
    assert_eq!(parse_decimal("99999999999999999999999999"), None);
}

#[test]
fn test_title_casing() {
    assert_eq!(title_case_words("broken clouds"), "Broken Clouds");
    assert_eq!(title_case_words("  heavy   snow "), "Heavy Snow");
    assert_eq!(title_case_words("overcast"), "Overcast");
    assert_eq!(title_case_words(""), "");
    assert_eq!(title_case_words("  \t "), "");
}
