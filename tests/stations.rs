use ya_bike_bot::bike_service::{count_text, find_station, BikeServiceError, Extra, Network, Station};
use ya_bike_bot::commands::{route_message, starts_with, Route};
use ya_bike_bot::error::InvalidBikeNetwork;
use ya_bike_bot::handle_location::stations_to_show;

fn station(id: &str, free: Option<u32>) -> Station {
    Station {
        free_bikes: free,
        empty_slots: Some(3),
        id: id.to_string(),
        name: format!("N{}", id),
        timestamp: String::new(),
        extra: None,
        network_href: None,
    }
}

#[test]
fn finds_station_by_id() {
    let list = vec![station("a", Some(1)), station("b", Some(2)), station("b", Some(3))];
    let s = find_station(list, "b").unwrap();
    assert_eq!(s.free_bikes, Some(2));
    let e = find_station(vec![station("a", None)], "z").unwrap_err();
    assert_eq!(e, BikeServiceError::StationNotFound("z".to_string()));
    assert_eq!(e.message(), "Station with id:`z` not found");
}

#[test]
fn network_without_link() {
    let n = Network { href: None, name: "Bicing".to_string(), stations: None };
    let e = n.stations_href().unwrap_err();
    assert_eq!(e.message(), "Network with name:`Bicing` does not have href value");
    let n = Network { href: Some("/v2/networks/bicing".to_string()), name: "B".to_string(), stations: None };
    assert_eq!(n.stations_href().unwrap(), "/v2/networks/bicing");
    let err = InvalidBikeNetwork::new("x".to_string());
    assert_eq!(err.message(), "InvalidBikeNetwork name: x");
}

#[test]
fn stations_are_tagged_with_their_network() {
    let s = station("a", Some(1)).with_network_href("/v2/networks/x");
    assert_eq!(s.network_href.as_deref(), Some("/v2/networks/x"));
    assert_eq!(s.id, "a");
}

#[test]
fn how_many_stations_to_list() {
    let few = vec![station("1", Some(2)), station("2", None), station("3", Some(4)), station("4", Some(50))];
    assert_eq!(stations_to_show(&few), 5);
    let many = vec![station("1", Some(2)), station("2", Some(1)), station("3", Some(4))];
    assert_eq!(stations_to_show(&many), 3);
    assert_eq!(stations_to_show(&vec![]), 5);
    let big = vec![station("1", Some(u32::MAX)), station("2", Some(u32::MAX)), station("3", Some(u32::MAX))];
    assert_eq!(stations_to_show(&big), 3);
}

#[test]
fn counts_shown() {
    assert_eq!(count_text(Some(0)), "0");
    assert_eq!(count_text(Some(1234)), "1234");
    assert_eq!(count_text(Some(u32::MAX)), "4294967295");
    assert_eq!(count_text(None), "??");
}

#[test]
fn station_card() {
    let mut s = station("a", Some(4));
    s.name = "Plaza (Sur)".to_string();
    s.empty_slots = None;
    s.extra = Some(Extra { address: Some("Calle 1.".to_string()), description: None });
    let text = s.message("https://www.google.com/maps?q=1.5%2C2.5");
    assert_eq!(
        text,
        "`Station   :` [Plaza \\(Sur\\)](https://www.google.com/maps?q=1.5%2C2.5)\n`Bikes     :` 4\n`Free slot :` ??\n_Calle 1\\._"
    );
    s.extra = Some(Extra { address: Some("x".to_string()), description: Some("__a__".to_string()) });
    assert!(s.message("u").ends_with("\n_\\_\\_a\\_\\_\u{5f}"));
    s.extra = None;
    assert!(s.message("u)").contains("[Plaza \\(Sur\\)](u\\))"));
    assert!(s.message("u").ends_with("\n__"));
}

#[test]
fn routes() {
    assert_eq!(route_message("/start", false), Route::Start);
    assert_eq!(route_message("/about me", true), Route::About);
    assert_eq!(route_message("", true), Route::Location);
    assert_eq!(route_message("hello", false), Route::Start);
    assert_eq!(route_message("/star", true), Route::Location);
    assert!(starts_with("abc", ""));
    assert!(!starts_with("ab", "abc"));
}
