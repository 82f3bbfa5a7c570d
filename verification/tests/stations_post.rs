use station_search::filter::{holds_keywords, stations_post};
use station_search::record::ApiStation;

fn station(name: &str, n: u32) -> ApiStation {
    ApiStation {
        name: String::from(name),
        stationuuid: format!("uuid{}", n),
        url: format!("url{}", n),
        homepage: format!("homepage{}", n),
        favicon: format!("favicon{}", n),
        codec: format!("codec{}", n),
        bitrate: 128,
        clickcount: 10,
        votes: 5,
    }
}

/// Two stations, `station1` and `station2`.
fn test_api_stations() -> Vec<ApiStation> {
    vec![
        ApiStation {
            name: String::from("station1"),
            stationuuid: String::from("uuid1"),
            url: "url1".to_string(),
            homepage: "homepage1".to_string(),
            favicon: "favicon1".to_string(),
            codec: "codec1".to_string(),
            bitrate: 128,
            clickcount: 10,
            votes: 5,
        },
        ApiStation {
            name: "station2".to_string(),
            stationuuid: "uuid2".to_string(),
            url: "url2".to_string(),
            homepage: "homepage2".to_string(),
            favicon: "favicon2".to_string(),
            codec: "codec2".to_string(),
            bitrate: 128,
            clickcount: 10,
            votes: 5,
        },
    ]
}

fn names(stations: &Vec<ApiStation>) -> Vec<String> {
    stations.iter().map(|s| s.name.clone()).collect()
}

#[test]
fn stations_post_jsstation_results_match_apistation_inputs() {
    let rb_stations = test_api_stations();
    let parts = Vec::<&str>::new();
    let result = stations_post(rb_stations, parts);
    assert_eq!(result.len(), 2);
    assert_eq!(result[0].name, "station1");
    assert_eq!(result[1].name, "station2");
}

#[test]
fn stations_post_returns_only_string_match() {
    let rb_stations = test_api_stations();
    let parts = vec!["", "sta", "ion2"];
    let result = stations_post(rb_stations, parts);
    assert_eq!(result.len(), 1);
    assert_eq!(result[0].name, "station2");
}

#[test]
fn stations_post_returns_empty_vec() {
    let rb_stations = test_api_stations();
    let parts = vec!["", "gabblesnack"];
    let result = stations_post(rb_stations, parts);
    assert_eq!(result.len(), 0);
}

#[test]
fn stations_post_keeps_every_field_of_a_kept_station() {
    let result = stations_post(test_api_stations(), vec!["", "ion2"]);
    assert_eq!(result.len(), 1);
    let s = &result[0];
    assert_eq!(s.name, "station2");
    assert_eq!(s.stationuuid, "uuid2");
    assert_eq!(s.url, "url2");
    assert_eq!(s.homepage, "homepage2");
    assert_eq!(s.favicon, "favicon2");
    assert_eq!(s.codec, "codec2");
    assert_eq!(s.bitrate, 128);
    assert_eq!(s.clickcount, 10);
    assert_eq!(s.votes, 5);
}

#[test]
fn stations_post_ignores_the_first_part() {
    let result = stations_post(test_api_stations(), vec!["gabblesnack"]);
    assert_eq!(names(&result), vec!["station1", "station2"]);
    let result = stations_post(test_api_stations(), vec!["gabblesnack", "ion1"]);
    assert_eq!(names(&result), vec!["station1"]);
}

#[test]
fn stations_post_lowercases_the_name() {
    let rb_stations = vec![station("Radio ONE", 1), station("radio two", 2), station("RADIO ÖL", 3)];
    let result = stations_post(rb_stations, vec!["radio", "one"]);
    assert_eq!(names(&result), vec!["Radio ONE"]);
    let rb_stations = vec![station("Radio ONE", 1), station("radio two", 2), station("RADIO ÖL", 3)];
    let result = stations_post(rb_stations, vec!["radio", "öl"]);
    assert_eq!(names(&result), vec!["RADIO ÖL"]);
}

#[test]
fn stations_post_takes_the_parts_as_they_are() {
    let result = stations_post(test_api_stations(), vec!["", "STA"]);
    assert_eq!(result.len(), 0);
}

#[test]
fn stations_post_accepts_an_empty_part() {
    let result = stations_post(test_api_stations(), vec!["", "", ""]);
    assert_eq!(names(&result), vec!["station1", "station2"]);
    let result = stations_post(test_api_stations(), vec!["", "", "ion1"]);
    assert_eq!(names(&result), vec!["station1"]);
}

#[test]
fn stations_post_keeps_order_and_duplicates() {
    let rb_stations = vec![
        station("delta jazz", 1),
        station("rock", 2),
        station("alpha jazz", 3),
        station("delta jazz", 4),
        station("jaz", 5),
    ];
    let result = stations_post(rb_stations, vec!["x", "jazz"]);
    assert_eq!(names(&result), vec!["delta jazz", "alpha jazz", "delta jazz"]);
    assert_eq!(result[0].stationuuid, "uuid1");
    assert_eq!(result[2].stationuuid, "uuid4");
}

#[test]
fn stations_post_is_idempotent() {
    let rb_stations = vec![
        station("Smooth Jazz FM", 1),
        station("Rock FM", 2),
        station("Jazz Radio", 3),
        station("FM4", 4),
    ];
    let once = stations_post(rb_stations, vec!["q", "jazz", "fm"]);
    assert_eq!(names(&once), vec!["Smooth Jazz FM"]);
    let expected = names(&once);
    let twice = stations_post(once, vec!["q", "jazz", "fm"]);
    assert_eq!(names(&twice), expected);
}

#[test]
fn stations_post_of_no_stations_is_empty() {
    let result = stations_post(Vec::new(), vec!["a", "b"]);
    assert_eq!(result.len(), 0);
}

#[test]
fn stations_post_follows_lowercasing_that_lengthens_the_name() {
    // U+0130 becomes `i` followed by U+0307.
    let result = stations_post(vec![station("\u{130}stanbul FM", 1)], vec!["", "i\u{307}stanbul"]);
    assert_eq!(result.len(), 1);
    let result = stations_post(vec![station("\u{130}stanbul FM", 1)], vec!["", "istanbul"]);
    assert_eq!(result.len(), 0);
}

#[test]
fn holds_keywords_asks_for_every_part_but_the_first() {
    assert!(holds_keywords("station2", &vec!["", "sta", "ion2"]));
    assert!(!holds_keywords("station1", &vec!["", "sta", "ion2"]));
    assert!(!holds_keywords("station1", &vec!["", "ion2", "sta"]));
    assert!(holds_keywords("station1", &vec!["nothing"]));
    assert!(holds_keywords("station1", &Vec::new()));
    assert!(holds_keywords("", &vec!["a", ""]));
    assert!(!holds_keywords("", &vec!["a", "b"]));
    assert!(holds_keywords("station1", &vec!["", "station1"]));
    assert!(!holds_keywords("station1", &vec!["", "station10"]));
}

#[test]
fn holds_keywords_does_not_lowercase() {
    assert!(!holds_keywords("Station", &vec!["", "station"]));
    assert!(holds_keywords("Station", &vec!["", "Stat"]));
}
