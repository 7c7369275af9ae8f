use ya_bike_bot::bike_service::Station;
use ya_bike_bot::models::CallbackData;
use ya_bike_bot::station_low_warn::{
    confirmation_reply, create_station_warn, reply_markups, shows_warn, station_offer,
    ConfirmError,
};

fn station(id: &str, free: Option<u32>, empty: Option<u32>, href: Option<&str>) -> Station {
    Station {
        free_bikes: free,
        empty_slots: empty,
        id: id.to_string(),
        name: format!("Station {}", id),
        timestamp: "2020-05-01T10:00:00Z".to_string(),
        extra: None,
        network_href: href.map(|h| h.to_string()),
    }
}

#[test]
fn low_share_threshold() {
    assert!(shows_warn(1, 4));
    assert!(!shows_warn(2, 7));
    assert!(shows_warn(0, 10));
    assert!(!shows_warn(0, 0));
    assert!(!shows_warn(10, 0));
    assert!(shows_warn(u32::MAX / 5, u32::MAX));
}

#[test]
fn offer_only_for_low_and_complete_stations() {
    let href = Some("/v2/networks/x");
    let o = station_offer(&station("A", Some(2), Some(18), href), "tok".to_string()).unwrap();
    assert_eq!(o.uuid, "tok");
    assert_eq!(o.free_bikes, 2);
    assert_eq!(o.id, "A");
    assert_eq!(o.network_href, "/v2/networks/x");
    assert!(station_offer(&station("B", Some(9), Some(1), href), "t".to_string()).is_none());
    assert!(station_offer(&station("C", None, Some(1), href), "t".to_string()).is_none());
    assert!(station_offer(&station("D", Some(0), None, href), "t".to_string()).is_none());
    assert!(station_offer(&station("E", Some(0), Some(5), None), "t".to_string()).is_none());
}

#[test]
fn offers_get_fresh_tokens() {
    let href = Some("/v2/networks/x");
    let stations = vec![
        station("A", Some(1), Some(9), href),
        station("B", Some(9), Some(1), href),
        station("C", Some(0), Some(4), href),
    ];
    let offers = reply_markups(&stations);
    assert_eq!(offers.len(), 3);
    let a = offers[0].as_ref().unwrap();
    let c = offers[2].as_ref().unwrap();
    assert!(offers[1].is_none());
    assert_eq!(a.uuid.len(), 32);
    assert_eq!(c.uuid.len(), 32);
    assert_ne!(a.uuid, c.uuid);
    assert_eq!(a.id, "A");
    assert_eq!(c.free_bikes, 0);
}

#[test]
fn confirming_an_unknown_token_fails() {
    let r = create_station_warn(None, 42, 99, 1_000);
    assert_eq!(r.unwrap_err(), ConfirmError::IntentNotFound);
}

#[test]
fn offer_confirmed_a_minute_later() {
    let offer = station_offer(&station("A", Some(2), Some(18), Some("/n")), "tok".to_string())
        .unwrap();
    let created_at: i64 = 1_600_000_000;
    let confirmed_at = created_at + 60;
    let w = create_station_warn(
        Some(CallbackData::from_reminder(offer)),
        42,
        99,
        confirmed_at,
    )
    .unwrap();
    assert_eq!(w.station_info.free_bikes, 2);
    assert_eq!(w.chat_id, 42);
    assert_eq!(w.message_id, 99);
    assert_eq!(w.created_at, confirmed_at);
    assert_eq!(w.updated_at, w.created_at);
    assert_eq!(w.uuid, "tok");
    assert_eq!(w.station_info.id, "A");
}

#[test]
fn confirming_now_uses_one_time() {
    let offer = station_offer(&station("A", Some(1), Some(9), Some("/n")), "k".to_string()).unwrap();
    let w = ya_bike_bot::station_low_warn::confirm_station_warn(
        Some(CallbackData::StartStationReminder(offer)),
        7,
        8,
    )
    .unwrap();
    assert_eq!(w.created_at, w.updated_at);
    assert!(w.created_at > 1_500_000_000);
    assert!(ya_bike_bot::station_low_warn::confirm_station_warn(None, 7, 8).is_err());
}

#[test]
fn answers_to_the_button() {
    assert_eq!(
        confirmation_reply(true),
        "I will warn you if this station has any changes in the next 30 minutes"
    );
    assert_eq!(confirmation_reply(false), "There was a problem. :(");
}
