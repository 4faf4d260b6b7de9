use weather_widget::City;
use weather_widget::Storage;

fn city(id: usize, name: &str, state: &str, country: &str) -> City {
    City {
        id,
        name: String::from(name),
        state: String::from(state),
        country: String::from(country),
    }
}

#[test]
fn test_full_name_without_state() {
    let c = city(6167865, "Toronto", "", "CA");
    assert_eq!(c.full_name(), "Toronto,CA");
}

#[test]
fn test_full_name_with_state() {
    let c = city(4930956, "Boston", "MA", "US");
    assert_eq!(c.full_name(), "Boston,MA,US");
}

#[test]
fn test_populates_and_find() {
    let data = br#"{"Toledo,US":5609791,"Toronto,CA":6167865,"Berlin,DE":2950159}"#.to_vec();
    let mut storage = Storage::new();
    assert!(!storage.is_populated());
    assert!(storage.populates(data));
    assert!(storage.is_populated());

    let hits = storage.find("to");
    assert_eq!(hits.len(), 2);
    assert!(hits.contains(&(String::from("Toronto,CA"), 6167865)));
    assert!(hits.contains(&(String::from("Toledo,US"), 5609791)));

    assert_eq!(storage.find("berl"), vec![(String::from("Berlin,DE"), 2950159)]);
    assert_eq!(storage.find("x"), vec![]);
}

#[test]
fn test_find_empty_query_returns_everything() {
    // The index itself has no minimum query length: the empty query is a
    // prefix of every key, so every stored entry comes back.
    let data = br#"{"Toledo,US":5609791,"Toronto,CA":6167865,"Berlin,DE":2950159}"#.to_vec();
    let mut storage = Storage::new();
    assert!(storage.populates(data));
    let hits = storage.find("");
    assert_eq!(hits.len(), 3);
    assert!(hits.contains(&(String::from("Toronto,CA"), 6167865)));
    assert!(hits.contains(&(String::from("Toledo,US"), 5609791)));
    assert!(hits.contains(&(String::from("Berlin,DE"), 2950159)));
}

#[test]
fn test_find_is_case_insensitive() {
    let data = br#"{"Toronto,CA":6167865}"#.to_vec();
    let mut storage = Storage::new();
    assert!(storage.populates(data));
    // Both the stored keys and the query are lower-cased.
    assert_eq!(storage.find("TORO"), vec![(String::from("Toronto,CA"), 6167865)]);
    assert_eq!(storage.find("tOrOnTo,ca"), vec![(String::from("Toronto,CA"), 6167865)]);
}

#[test]
fn test_populate_cities_and_find() {
    // A catalog record with an empty administrative region: the search
    // key is the lower-cased "name,country" display name.
    let cities = vec![
        city(6167865, "Toronto", "", "CA"),
        city(5609791, "Toledo", "OH", "US"),
    ];
    let mut storage = Storage::new();
    storage.populate_cities(&cities);
    assert!(storage.is_populated());

    let hits = storage.find("toro");
    assert!(hits.contains(&(String::from("Toronto,CA"), 6167865)));

    let hits = storage.find("toledo,oh");
    assert_eq!(hits, vec![(String::from("Toledo,OH,US"), 5609791)]);
}

#[test]
fn test_populates_rejects_malformed_bytes() {
    let mut storage = Storage::new();
    assert!(!storage.populates(b"not json at all".to_vec()));
    assert!(!storage.is_populated());
    assert!(!storage.populates(br#"[1, 2, 3]"#.to_vec()));
    assert!(!storage.is_populated());
}

#[test]
fn test_populates_only_once() {
    let mut storage = Storage::new();
    assert!(storage.populates(br#"{"Toronto,CA":6167865}"#.to_vec()));
    // A second batch is ignored: the index is already populated.
    assert!(storage.populates(br#"{"Berlin,DE":2950159}"#.to_vec()));
    assert_eq!(storage.find("berl"), vec![]);
    assert_eq!(storage.find("toro"), vec![(String::from("Toronto,CA"), 6167865)]);
}

#[test]
fn test_equal_lowercase_keys_keep_every_entry() {
    // Distinct cities may share a lower-cased display name; all of them
    // stay searchable.
    let mut storage = Storage::new();
    let cities = vec![city(1, "Paris", "", "FR"), city(2, "paris", "", "fr")];
    storage.populate_cities(&cities);
    let hits = storage.find("paris");
    assert_eq!(hits.len(), 2);
    assert!(hits.contains(&(String::from("Paris,FR"), 1)));
    assert!(hits.contains(&(String::from("paris,fr"), 2)));
}

#[test]
fn test_populate_cities_only_once() {
    let mut storage = Storage::new();
    storage.populate_cities(&vec![city(6167865, "Toronto", "", "CA")]);
    // The index is built once: a second catalog is ignored.
    storage.populate_cities(&vec![city(2950159, "Berlin", "", "DE")]);
    assert_eq!(storage.find("berl"), vec![]);
    assert_eq!(storage.find("toro"), vec![(String::from("Toronto,CA"), 6167865)]);
}
