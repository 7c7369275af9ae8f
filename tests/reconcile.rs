use ya_bike_bot::bike_service::Station;
use ya_bike_bot::models::{StationReminderInfo, StationWarn};
use ya_bike_bot::station_low_warn::{
    build_telegram_message, decide, plan_cycle, reconcile_due, Notice, STATION_WARN_TTL,
    WARN_INTERVAL_TIME,
};

fn station(id: &str, name: &str, free: Option<u32>, empty: Option<u32>) -> Station {
    Station {
        free_bikes: free,
        empty_slots: empty,
        id: id.to_string(),
        name: name.to_string(),
        timestamp: "2020-05-01T10:00:00Z".to_string(),
        extra: None,
        network_href: Some("/v2/networks/bicing".to_string()),
    }
}

fn warn(uuid: &str, free: u32, created_at: i64, updated_at: i64) -> StationWarn {
    StationWarn {
        uuid: uuid.to_string(),
        message_id: 99,
        created_at,
        updated_at,
        chat_id: 42,
        station_info: StationReminderInfo {
            uuid: uuid.to_string(),
            network_href: "/v2/networks/bicing".to_string(),
            free_bikes: free,
            id: "A".to_string(),
        },
    }
}

#[test]
fn decide_lost_gained_and_none() {
    assert_eq!(decide(10, 7), Some(Notice::Lost(3)));
    assert_eq!(decide(7, 10), Some(Notice::Gained { count: 3, now: 10 }));
    assert_eq!(decide(5, 5), None);
    assert_eq!(decide(0, u32::MAX), Some(Notice::Gained { count: u32::MAX, now: u32::MAX }));
    assert_eq!(decide(u32::MAX, 0), Some(Notice::Lost(u32::MAX)));
}

#[test]
fn message_for_lost_bikes() {
    let w = warn("t1", 2, 1000, 1000);
    let m = build_telegram_message(&w, &station("A", "Plaça Major", Some(0), Some(20))).unwrap();
    assert_eq!(m.chat_id, 42);
    assert_eq!(m.reply_to, 99);
    assert_eq!(m.text, "\u{1f494} `Plaça Major` has lost *2* bikes");
}

#[test]
fn message_for_gained_bikes_escapes_the_name() {
    let w = warn("t1", 7, 1000, 1000);
    let m = build_telegram_message(&w, &station("A", "St. Anne (north)", Some(10), Some(2))).unwrap();
    assert_eq!(
        m.text,
        "\u{1f49a} *3* has appeard on `St\\. Anne \\(north\\)`!!! It now has *10* bikes."
    );
}

#[test]
fn no_message_without_change_or_count() {
    let w = warn("t1", 5, 1000, 1000);
    assert!(build_telegram_message(&w, &station("A", "A", Some(5), Some(5))).is_none());
    assert!(build_telegram_message(&w, &station("A", "A", None, Some(5))).is_none());
}

#[test]
fn plan_splits_expired_due_and_recent() {
    let now: i64 = 1_000_000;
    let warns = vec![
        warn("old", 1, now - STATION_WARN_TTL - 1, now - 1000),
        warn("due", 1, now - 600, now - WARN_INTERVAL_TIME - 1),
        warn("recent", 1, now - 600, now - WARN_INTERVAL_TIME),
        warn("edge", 1, now - STATION_WARN_TTL, now - 400),
    ];
    let plan = plan_cycle(&warns, now);
    assert_eq!(plan.now, now);
    assert_eq!(plan.expired_keys, vec!["ACTIVE_STATIONS_WARN:old".to_string()]);
    let due: Vec<&str> = plan.due.iter().map(|w| w.uuid.as_str()).collect();
    assert_eq!(due, vec!["due", "edge"]);
}

#[test]
fn due_subscription_losing_bikes_is_told_and_saved() {
    let now: i64 = 2_000_000;
    let warns = vec![warn("s1", 2, now - 600, now - 301)];
    let plan = plan_cycle(&warns, now);
    assert_eq!(plan.due.len(), 1);
    let fetched = vec![Some(station("A", "Station A", Some(0), Some(10)))];
    let out = reconcile_due(&plan.due, &fetched, now);
    assert_eq!(out.messages.len(), 1);
    assert_eq!(out.messages[0].text, "\u{1f494} `Station A` has lost *2* bikes");
    assert_eq!(out.messages[0].chat_id, 42);
    assert_eq!(out.messages[0].reply_to, 99);
    assert_eq!(out.saves.len(), 1);
    assert_eq!(out.saves[0].station_info.free_bikes, 0);
    assert_eq!(out.saves[0].updated_at, now);
    assert_eq!(out.saves[0].created_at, now - 600);
    assert_eq!(out.saves[0].uuid, "s1");
}

#[test]
fn failed_fetch_leaves_subscription_due() {
    let now: i64 = 2_000_000;
    let warns = vec![warn("s1", 2, now - 600, now - 301)];
    let plan = plan_cycle(&warns, now);
    let out = reconcile_due(&plan.due, &vec![None], now);
    assert!(out.messages.is_empty());
    assert!(out.saves.is_empty());
    let next = plan_cycle(&warns, now + 60);
    assert_eq!(next.due.len(), 1);
    assert_eq!(next.due[0].station_info.free_bikes, 2);
    assert_eq!(next.due[0].updated_at, now - 301);
}

#[test]
fn missing_count_is_not_zero() {
    let now: i64 = 2_000_000;
    let due = vec![warn("s1", 2, now - 600, now - 301)];
    let out = reconcile_due(&due, &vec![Some(station("A", "A", None, Some(3)))], now);
    assert!(out.messages.is_empty());
    assert!(out.saves.is_empty());
}

#[test]
fn unchanged_count_is_still_marked_checked() {
    let now: i64 = 2_000_000;
    let due = vec![warn("s1", 4, now - 600, now - 301)];
    let out = reconcile_due(&due, &vec![Some(station("A", "A", Some(4), Some(3)))], now);
    assert!(out.messages.is_empty());
    assert_eq!(out.saves.len(), 1);
    assert_eq!(out.saves[0].updated_at, now);
    assert!(out.saves[0].updated_at >= due[0].updated_at);
    assert_eq!(out.saves[0].station_info.free_bikes, 4);
}

#[test]
fn recent_subscription_is_left_alone() {
    let now: i64 = 3_000_000;
    let warns = vec![warn("r", 1, now - 100, now - 10)];
    let plan = plan_cycle(&warns, now);
    assert!(plan.expired_keys.is_empty());
    assert!(plan.due.is_empty());
}

#[test]
fn expired_subscription_is_deleted_and_not_checked() {
    let now: i64 = 3_000_000;
    let warns = vec![warn("x", 1, now - 1801, now - 400)];
    let plan = plan_cycle(&warns, now);
    assert_eq!(plan.expired_keys, vec!["ACTIVE_STATIONS_WARN:x".to_string()]);
    assert!(plan.due.is_empty());
    let later = plan_cycle(&warns, now + 3600);
    assert_eq!(later.expired_keys.len(), 1);
    assert!(later.due.is_empty());
}

#[test]
fn key_of_a_subscription() {
    let w = warn("abc", 1, 0, 0);
    assert_eq!(w.id(), "ACTIVE_STATIONS_WARN:abc");
    assert_eq!(ya_bike_bot::station_low_warn::warn_key_pattern(), "ACTIVE_STATIONS_WARN*");
    assert!(w.should_warn(WARN_INTERVAL_TIME + 1));
    assert!(!w.should_warn(WARN_INTERVAL_TIME));
    assert!(w.should_delete(STATION_WARN_TTL + 1));
    assert!(!w.should_delete(STATION_WARN_TTL));
}
