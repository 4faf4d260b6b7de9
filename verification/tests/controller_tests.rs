use weather_widget::model::classify_fetch_outcome;
use weather_widget::model::format_location;
use weather_widget::model::location_key;
use weather_widget::model::parse_location;
use weather_widget::model::restore_location;
use weather_widget::Command;
use weather_widget::Desc;
use weather_widget::LocationWeather;
use weather_widget::Model;
use weather_widget::Msg;
use weather_widget::Temperatures;
use weather_widget::Times;
use weather_widget::Wind;

fn payload(code: u16, description: &str) -> LocationWeather {
    LocationWeather {
        descriptions: vec![Desc { id: code, description: String::from(description) }],
        temperature: Temperatures {
            temp: 251,
            feels_like: 249,
            temp_min: 240,
            temp_max: 260,
            pressure: 1013,
            humidity: 40,
        },
        visibility: None,
        wind: Wind { speed: 31, degree: 2400 },
        clouds: None,
        rain: None,
        snow: None,
        current_time: 1_600_000_000,
        times: Times { sunrise: 1_599_980_000, sunset: 1_600_020_000 },
        timezone_offset: 0,
    }
}

#[test]
fn test_location_key() {
    assert_eq!(location_key(), "location");
}

#[test]
fn test_persisted_location_round_trip() {
    let stored = format_location("Ottawa", 6094817);
    assert_eq!(stored, "Ottawa|6094817");
    assert_eq!(parse_location(&stored), Some((String::from("Ottawa"), 6094817)));
    assert_eq!(
        restore_location(Some(stored)),
        (String::from("Ottawa"), 6094817)
    );
}

#[test]
fn test_restore_falls_back_to_default() {
    let default = (String::from("Toronto"), 6167865);
    assert_eq!(restore_location(None), default.clone());
    assert_eq!(restore_location(Some(String::from("no separator"))), default.clone());
    assert_eq!(restore_location(Some(String::from("City|notanumber"))), default.clone());
    assert_eq!(restore_location(Some(String::from("City|"))), default.clone());
    assert_eq!(restore_location(Some(String::new())), default);
}

#[test]
fn test_parse_location_takes_first_separator() {
    assert_eq!(
        parse_location("a|b|12"),
        None,
        "the id part of a doubly separated value is not a number"
    );
    assert_eq!(parse_location("|12"), Some((String::new(), 12)));
}

#[test]
fn test_load_location_emits_load_weather() {
    let mut m = Model::new();
    let (render, cmds) = m.update(Msg::LoadLocation(None));
    assert!(!render);
    assert_eq!(
        cmds,
        vec![Command::Emit(Msg::LoadWeather(String::from("Toronto"), 6167865))]
    );
    let (_, cmds) = m.update(Msg::LoadLocation(Some(String::from("Berlin,DE|2950159"))));
    assert_eq!(
        cmds,
        vec![Command::Emit(Msg::LoadWeather(String::from("Berlin,DE"), 2950159))]
    );
}

#[test]
fn test_load_weather_persists_and_fetches() {
    let mut m = Model::new();
    let (render, cmds) = m.update(Msg::LoadWeather(String::from("Toronto,CA"), 6167865));
    assert!(render);
    assert_eq!(
        cmds,
        vec![
            Command::Persist(String::from("Toronto,CA|6167865")),
            Command::Fetch(1, String::from("Toronto,CA"), 6167865),
        ]
    );
    assert!(m.suggestions.is_empty());
    // A second selection supersedes the first: a fresh generation.
    let (_, cmds) = m.update(Msg::LoadWeather(String::from("Berlin,DE"), 2950159));
    assert_eq!(
        cmds,
        vec![
            Command::Persist(String::from("Berlin,DE|2950159")),
            Command::Fetch(2, String::from("Berlin,DE"), 2950159),
        ]
    );
}

#[test]
fn test_stale_completion_never_alters_the_board() {
    let mut m = Model::new();
    // First fetch (generation 1) for Toronto, then a second (generation 2)
    // for Berlin is issued before the first completes.
    m.update(Msg::LoadWeather(String::from("Toronto,CA"), 6167865));
    m.update(Msg::LoadWeather(String::from("Berlin,DE"), 2950159));

    // The late completion of the superseded Toronto fetch is ignored.
    let (render, cmds) = m.update(Msg::Fetched(
        1,
        String::from("Toronto,CA"),
        payload(800, "clear sky"),
        false,
    ));
    assert!(!render);
    assert!(cmds.is_empty());
    assert!(m.board.is_none());

    // The current completion replaces the board.
    let (render, cmds) = m.update(Msg::Fetched(
        2,
        String::from("Berlin,DE"),
        payload(500, "light rain"),
        false,
    ));
    assert!(render);
    assert_eq!(cmds, vec![Command::Emit(Msg::PlayVideo)]);
    let board = m.board.as_ref().unwrap();
    assert_eq!(board.today.title, "Berlin,DE");

    // Another stale Toronto completion afterwards changes nothing either.
    let before = format!("{:?}", m.board);
    let (render, cmds) = m.update(Msg::Fetched(
        1,
        String::from("Toronto,CA"),
        payload(800, "clear sky"),
        false,
    ));
    assert!(!render);
    assert!(cmds.is_empty());
    assert_eq!(format!("{:?}", m.board), before);
}

#[test]
fn test_fetched_builds_board_with_media() {
    let mut m = Model::new();
    m.update(Msg::LoadWeather(String::from("Toronto,CA"), 6167865));
    let (render, _) = m.update(Msg::Fetched(
        1,
        String::from("Toronto,CA"),
        payload(200, "thunderstorm with light rain"),
        true,
    ));
    assert!(render);
    let board = m.board.as_ref().unwrap();
    assert_eq!(
        board.today.icon.as_ref().unwrap().image_source,
        "thunderstorm_with_rain_day.png"
    );
    assert_eq!(
        board.background.as_ref().unwrap().source_video,
        "weather_thunderstorm_day.mp4"
    );
    assert_eq!(board.today.weather.description(), "Thunderstorm With Light Rain");
}

#[test]
fn test_fetched_unclassifiable_code_builds_board_without_media() {
    let mut m = Model::new();
    m.update(Msg::LoadWeather(String::from("Nowhere"), 1));
    m.update(Msg::Fetched(1, String::from("Nowhere"), payload(999, "odd"), true));
    let board = m.board.as_ref().unwrap();
    assert!(board.background.is_none());
    assert!(board.today.icon.is_none());
}

#[test]
fn test_short_queries_never_reach_the_index() {
    let mut m = Model::new();
    m.update(Msg::LocationDataLoaded(br#"{"Toronto,CA":6167865}"#.to_vec()));
    // A long enough query fills the suggestions ...
    m.update(Msg::Search(String::from("toro")));
    assert_eq!(m.suggestions, vec![(String::from("Toronto,CA"), 6167865)]);
    // ... and any query under three characters only clears them.
    let (render, cmds) = m.update(Msg::Search(String::from("to")));
    assert!(render);
    assert!(cmds.is_empty());
    assert!(m.suggestions.is_empty());
    m.update(Msg::Search(String::from("")));
    assert!(m.suggestions.is_empty());
}

#[test]
fn test_search_bar_bootstraps_catalog_once() {
    let mut m = Model::new();
    let (render, cmds) = m.update(Msg::LoadSearchBar);
    assert!(!render);
    assert_eq!(cmds, vec![Command::LoadCityData]);
    m.update(Msg::LocationDataLoaded(br#"{"Toronto,CA":6167865}"#.to_vec()));
    let (_, cmds) = m.update(Msg::LoadSearchBar);
    assert!(cmds.is_empty());
}

#[test]
fn test_malformed_catalog_is_fatal() {
    let mut m = Model::new();
    let (_, cmds) = m.update(Msg::LocationDataLoaded(b"not json".to_vec()));
    assert_eq!(cmds, vec![Command::Fatal(String::from("Failed to deserialize"))]);
}

#[test]
fn test_remaining_messages() {
    let mut m = Model::new();
    let (render, cmds) = m.update(Msg::Failed(String::from("boom")));
    assert!(!render);
    assert_eq!(cmds, vec![Command::LogError(String::from("boom"))]);
    let (render, cmds) = m.update(Msg::PlayVideo);
    assert!(!render);
    assert_eq!(cmds, vec![Command::PlayMedia]);
    let (render, cmds) = m.update(Msg::Shade);
    assert!(render);
    assert_eq!(cmds, vec![Command::ToggleShade]);
    let (render, cmds) = m.update(Msg::Ignored);
    assert!(!render);
    assert!(cmds.is_empty());
}

#[test]
fn test_classify_fetch_outcome() {
    let w = payload(800, "clear sky");
    let m = classify_fetch_outcome(3, String::from("Toronto,CA"), true, Ok(w.clone()), false);
    assert_eq!(m, Msg::Fetched(3, String::from("Toronto,CA"), w.clone(), false));
    // A non-success response is a failure even with a decodable body.
    let m = classify_fetch_outcome(3, String::from("Toronto,CA"), false, Ok(w), false);
    assert_eq!(m, Msg::Failed(String::from("Response failed")));
    let m = classify_fetch_outcome(3, String::from("x"), true, Err(String::from("bad body")), false);
    assert_eq!(m, Msg::Failed(String::from("bad body")));
}
