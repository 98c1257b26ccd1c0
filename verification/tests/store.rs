use device_hub::db::{
    create_device, create_device_type, create_topic, create_webhook, create_webhook_topic,
    get_all_topic_relations, get_device_types, get_topics, get_webhook_topics, get_webhooks,
    new_device_type_id, new_topic_id, prefixed_id, topic_relation_exists,
};
use device_hub::logging::{
    connect_log, disconnect_log, insert_log, page_offset, page_request, paginated_logs, publish_log,
    total_pages, LogLevel,
};
use device_hub::models;
use device_hub::publisher::ConnectError;
use device_hub::rate_limiter::{get_time_bucket, RateLimit};
use device_hub::utils::{checked_instant_to_seconds, created_at, get_time, instant_to_seconds};
use std::time::{Duration, SystemTime};

fn at(secs: u64) -> SystemTime {
    SystemTime::UNIX_EPOCH + Duration::from_secs(secs)
}

fn before_epoch() -> SystemTime {
    SystemTime::UNIX_EPOCH - Duration::from_secs(5)
}

fn o(text: &str) -> String {
    text.to_string()
}

#[test]
fn seconds_since_the_epoch() {
    assert_eq!(instant_to_seconds(at(0)), 0);
    assert_eq!(instant_to_seconds(at(1_600_000_000)), 1_600_000_000);
    assert_eq!(instant_to_seconds(at(61) + Duration::from_millis(999)), 61);
    assert_eq!(checked_instant_to_seconds(at(61)), Some(61));
    assert_eq!(checked_instant_to_seconds(before_epoch()), None);
}

#[test]
fn wire_timestamp_of_a_reading() {
    let stamp = created_at(at(7) + Duration::from_nanos(123)).ok().unwrap();
    assert_eq!(stamp.seconds_since_unix, 7);
    assert_eq!(stamp.nano_seconds, 123);
    assert_eq!(created_at(before_epoch()).err(), Some("Error getting system time."));
}

#[test]
fn present_time_is_after_the_epoch() {
    let stamp = get_time().ok().unwrap();
    assert!(stamp.seconds_since_unix > 1_600_000_000);
    assert!(stamp.nano_seconds < 1_000_000_000);
    let bucket = get_time_bucket();
    assert_eq!(bucket % 60, 0);
    assert!(bucket <= stamp.seconds_since_unix + 60);
    assert!(bucket + 120 > stamp.seconds_since_unix);
}

#[test]
fn counter_on_the_wall_clock() {
    let mut limit = RateLimit::new();
    assert_eq!(limit.requests, 0);
    assert_eq!(limit.current_window % 60, 0);
    limit.update_request_count();
    assert!(limit.requests == 1);
    limit.current_window = 0;
    limit.requests = 41;
    limit.update_request_count();
    assert_eq!(limit.requests, 1);
    assert!(limit.current_window > 0);
}

#[test]
fn device_types_are_shown_with_seconds() {
    let rows = vec![
        models::DeviceType {
            id: o("devt_1"),
            account_id: o("acct_A"),
            name: o("sensor"),
            created_at: at(100),
            updated_at: at(200),
            description: None,
        },
        models::DeviceType {
            id: o("devt_2"),
            account_id: o("acct_A"),
            name: o("valve"),
            created_at: at(300),
            updated_at: before_epoch(),
            description: Some(o("opens")),
        },
    ];
    let shown = get_device_types(rows).unwrap();
    assert_eq!(shown.len(), 2);
    assert_eq!(shown[0].id, "devt_1");
    assert_eq!(shown[0].name, "sensor");
    assert_eq!(shown[0].description, None);
    assert_eq!(shown[0].created_at, 100);
    assert_eq!(shown[1].id, "devt_2");
    assert_eq!(shown[1].description, Some(o("opens")));
    assert_eq!(shown[1].created_at, 300);
    assert_eq!(get_device_types(Vec::new()).unwrap().len(), 0);
}

#[test]
fn row_before_the_epoch_cannot_be_shown() {
    let rows = vec![models::DeviceType {
        id: o("devt_1"),
        account_id: o("acct_A"),
        name: o("sensor"),
        created_at: before_epoch(),
        updated_at: at(200),
        description: None,
    }];
    assert!(get_device_types(rows).is_none());
    let topics = vec![models::Topic {
        id: o("top_1"),
        account_id: o("acct_A"),
        name: o("alarms"),
        description: None,
        created_at: at(1),
        updated_at: before_epoch(),
    }];
    assert!(get_topics(topics).is_none());
}

#[test]
fn topics_and_webhooks_are_shown_with_seconds() {
    let topics = get_topics(vec![models::Topic {
        id: o("top_1"),
        account_id: o("acct_A"),
        name: o("alarms"),
        description: Some(o("loud")),
        created_at: at(10),
        updated_at: at(20),
    }])
    .unwrap();
    assert_eq!(topics[0].id, "top_1");
    assert_eq!(topics[0].account_id, "acct_A");
    assert_eq!(topics[0].name, "alarms");
    assert_eq!(topics[0].description, Some(o("loud")));
    assert_eq!((topics[0].created_at, topics[0].updated_at), (10, 20));
    let webhooks = get_webhooks(vec![models::Webhook {
        id: 4,
        account_id: o("acct_A"),
        url: o("https://u1"),
        created_at: at(30),
        updated_at: at(40),
    }])
    .unwrap();
    assert_eq!(webhooks[0].id, 4);
    assert_eq!(webhooks[0].url, "https://u1");
    assert_eq!((webhooks[0].created_at, webhooks[0].updated_at), (30, 40));
    let bound = get_webhook_topics(vec![models::BoundTopic {
        id: 9,
        webhook_id: 4,
        topic_id: o("top_1"),
        name: o("alarms"),
        description: None,
        created_at: at(50),
        updated_at: at(60),
    }])
    .unwrap();
    assert_eq!((bound[0].id, bound[0].webhook_id), (9, 4));
    assert_eq!(bound[0].topic_id, "top_1");
    assert_eq!(bound[0].name, "alarms");
    assert_eq!((bound[0].created_at, bound[0].updated_at), (50, 60));
}

#[test]
fn relations_are_read_from_pairs() {
    let relations = get_all_topic_relations(vec![(o("t1"), o("acct_A")), (o("t2"), o("acct_B"))]);
    assert_eq!(relations.len(), 2);
    assert_eq!(relations[0].id, "t1");
    assert_eq!(relations[0].account_id, "acct_A");
    assert_eq!(relations[1].id, "t2");
    assert_eq!(relations[1].account_id, "acct_B");
    assert!(topic_relation_exists(Some(true)));
    assert!(!topic_relation_exists(Some(false)));
    assert!(!topic_relation_exists(None));
}

#[test]
fn fresh_ids_carry_their_prefix() {
    assert_eq!(prefixed_id("devt_", "abc"), "devt_abc");
    let device_type = new_device_type_id();
    assert_eq!(device_type.len(), 37);
    assert!(device_type.starts_with("devt_"));
    assert!(device_type[5..].chars().all(|c| c.is_ascii_digit() || ('a'..='f').contains(&c)));
    let topic = new_topic_id();
    assert_eq!(topic.len(), 36);
    assert!(topic.starts_with("top_"));
    assert_ne!(new_topic_id(), topic);
}

#[test]
fn rows_to_insert() {
    let row = create_device_type("devt_1", "sensor", "acct_A", Some("reads"));
    assert_eq!((row.id, row.name, row.account_id, row.description), ("devt_1", "sensor", "acct_A", Some("reads")));
    let row = create_device("d1", "devt_1");
    assert_eq!((row.id, row.device_type_id), ("d1", "devt_1"));
    let row = create_topic("top_1", "alarms", "acct_A", None);
    assert_eq!((row.id, row.name, row.account_id, row.description), ("top_1", "alarms", "acct_A", None));
    let row = create_webhook("acct_A", "https://u1");
    assert_eq!((row.account_id, row.url), ("acct_A", "https://u1"));
    let row = create_webhook_topic(4, "top_1");
    assert_eq!((row.webhook_id, row.topic_id), (4, "top_1"));
    let row = insert_log("acct_A", "info", Some(serde_json::Value::from(1)));
    assert_eq!((row.account_id, row.level), ("acct_A", "info"));
    assert_eq!(row.data, Some(serde_json::Value::from(1)));
}

#[test]
fn log_levels_and_lines() {
    assert_eq!(LogLevel::Info.to_string(), "info");
    assert_eq!(LogLevel::Error.to_string(), "error");
    assert_eq!(connect_log(&Ok(())), (LogLevel::Info, "connected"));
    assert_eq!(connect_log(&Err(ConnectError::Admission)), (LogLevel::Error, "max connections error"));
    assert_eq!(connect_log(&Err(ConnectError::Transient)), (LogLevel::Error, "connection error"));
    assert_eq!(disconnect_log(), (LogLevel::Info, "disconnected"));
    assert_eq!(publish_log(), (LogLevel::Info, "Message received"));
}

#[test]
fn log_pages() {
    assert_eq!(page_request(None, None), (1, 10));
    assert_eq!(page_request(Some(3), None), (3, 10));
    assert_eq!(page_request(None, Some(25)), (1, 25));
    assert_eq!(page_request(Some(u32::MAX), Some(0)), (4_294_967_295, 0));
    let page = paginated_logs(
        vec![models::Log {
            id: 1,
            account_id: o("acct_A"),
            level: o("error"),
            data: Some(serde_json::Value::from("x")),
            created_at: at(77),
            updated_at: at(78),
        }],
        5,
    )
    .unwrap();
    assert_eq!(page.total_pages, 5);
    assert_eq!(page.items.len(), 1);
    assert_eq!(page.items[0].account_id, "acct_A");
    assert_eq!(page.items[0].level, "error");
    assert_eq!(page.items[0].data, Some(serde_json::Value::from("x")));
    assert_eq!(page.items[0].created_at, 77);
    let early = vec![models::Log {
        id: 1,
        account_id: o("acct_A"),
        level: o("info"),
        data: None,
        created_at: before_epoch(),
        updated_at: at(78),
    }];
    assert!(paginated_logs(early, 1).is_none());
}

#[test]
fn page_arithmetic() {
    assert_eq!(page_offset(1, 10), Some(0));
    assert_eq!(page_offset(0, 10), Some(0));
    assert_eq!(page_offset(3, 10), Some(20));
    assert_eq!(page_offset(5, 0), Some(0));
    assert_eq!(page_offset(u32::MAX, u32::MAX), None);
    assert_eq!(page_offset(u32::MAX, 1), Some(4_294_967_294));
    assert_eq!(total_pages(0, 10), 0);
    assert_eq!(total_pages(1, 10), 1);
    assert_eq!(total_pages(10, 10), 1);
    assert_eq!(total_pages(11, 10), 2);
    assert_eq!(total_pages(11, 0), 0);
    assert_eq!(total_pages(-3, 10), 0);
}
