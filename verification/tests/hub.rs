use device_hub::db::TopicRelation;
use device_hub::publisher::{
    Connect, ConnectError, Disconnect, GetAccountActivity, PublishMessage, Publisher, RegisterTopics, Sender,
};
use device_hub::websocket::Message;

fn s(text: &str) -> String {
    text.to_string()
}

fn payload() -> serde_json::Value {
    let mut object = serde_json::Map::new();
    object.insert(s("v"), serde_json::Value::from(1));
    serde_json::Value::Object(object)
}

fn relation(topic: &str, account: &str) -> TopicRelation {
    TopicRelation { id: s(topic), account_id: s(account) }
}

fn connect(hub: &mut Publisher<u32>, account: &str, device: &str, handle: u32) -> Result<(), ConnectError> {
    hub.connect(Connect { account_id: s(account), device_type_id: s("devt_1"), device_id: s(device), addr: handle })
}

fn register(hub: &mut Publisher<u32>, account: &str, device: &str, topics: &[&str], permitted: &[bool]) {
    let msg = RegisterTopics {
        account_id: s(account),
        device_id: s(device),
        topics: topics.iter().map(|t| s(t)).collect(),
    };
    hub.register_topics(&msg, &permitted.to_vec());
}

fn from_device(account: &str, device: &str, topics: &[&str]) -> PublishMessage {
    PublishMessage {
        sender: Sender::Device { device_id: s(device), device_type_id: s("devt_1") },
        account_id: s(account),
        message: Message {
            seconds_since_unix: 1_600_000_000,
            nano_seconds: 5,
            topics: topics.iter().map(|t| s(t)).collect(),
            data: payload(),
        },
    }
}

fn from_outside(account: &str, topics: &[&str]) -> PublishMessage {
    PublishMessage {
        sender: Sender::Address(None),
        account_id: s(account),
        message: Message {
            seconds_since_unix: 1_600_000_000,
            nano_seconds: 5,
            topics: topics.iter().map(|t| s(t)).collect(),
            data: payload(),
        },
    }
}

fn sorted(mut list: Vec<String>) -> Vec<String> {
    list.sort();
    list
}

/// A hub with tenant acct_A (cap 2), topics t1 and t2 allowed, devices d1
/// and d2 connected and subscribed to t1.
fn two_devices() -> Publisher<u32> {
    let mut hub: Publisher<u32> = Publisher::initialize();
    hub.topic_relations_refresh(Some(vec![relation("t1", "acct_A")]));
    hub.load_account(s("acct_A"), 2);
    assert_eq!(connect(&mut hub, "acct_A", "d1", 1), Ok(()));
    register(&mut hub, "acct_A", "d1", &["t1"], &[true]);
    assert_eq!(connect(&mut hub, "acct_A", "d2", 2), Ok(()));
    register(&mut hub, "acct_A", "d2", &["t1"], &[true]);
    hub
}

#[test]
fn scenario_cap_and_no_echo() {
    let mut hub = two_devices();
    assert_eq!(connect(&mut hub, "acct_A", "d3", 3), Err(ConnectError::Admission));
    assert!(hub.session(&s("d3")).is_none());
    let delivery = hub.publish(&from_device("acct_A", "d1", &["t1"]));
    assert_eq!(delivery.recipients, vec![s("d2")]);
    assert!(delivery.to_webhooks);
}

#[test]
fn scenario_topic_off_allow_list() {
    let mut hub = two_devices();
    register(&mut hub, "acct_A", "d2", &["t2"], &[true]);
    let delivery = hub.publish(&from_device("acct_A", "d1", &["t2"]));
    assert!(delivery.recipients.is_empty());
}

#[test]
fn scenario_external_origin() {
    let hub = two_devices();
    let delivery = hub.publish(&from_outside("acct_A", &["t1"]));
    assert_eq!(sorted(delivery.recipients), vec![s("d1"), s("d2")]);
    assert!(!delivery.to_webhooks);
}

#[test]
fn scenario_disconnect_after_timeout() {
    let mut hub = two_devices();
    let known = hub.disconnect(&Disconnect {
        account_id: s("acct_A"),
        device_type_id: s("devt_1"),
        device_id: s("d1"),
    });
    assert!(known);
    assert!(hub.session(&s("d1")).is_none());
    let devices = hub.account_activity(&GetAccountActivity(s("acct_A"))).unwrap();
    assert_eq!(devices.len(), 1);
    assert_eq!(devices[0].device_id(), "d2");
    assert_eq!(devices[0].device_type_id(), "devt_1");
    let delivery = hub.publish(&from_outside("acct_A", &["t1"]));
    assert_eq!(delivery.recipients, vec![s("d2")]);
}

#[test]
fn connect_without_account_is_transient() {
    let mut hub: Publisher<u32> = Publisher::initialize();
    assert!(!hub.knows_account(&s("acct_A")));
    assert_eq!(connect(&mut hub, "acct_A", "d1", 1), Err(ConnectError::Transient));
    assert!(hub.session(&s("d1")).is_none());
    assert!(hub.account_activity(&GetAccountActivity(s("acct_A"))).is_none());
}

#[test]
fn cap_of_zero_admits_nobody() {
    let mut hub: Publisher<u32> = Publisher::initialize();
    hub.load_account(s("acct_A"), 0);
    assert!(hub.knows_account(&s("acct_A")));
    assert_eq!(connect(&mut hub, "acct_A", "d1", 1), Err(ConnectError::Admission));
    assert_eq!(hub.account_activity(&GetAccountActivity(s("acct_A"))).unwrap().len(), 0);
}

#[test]
fn load_account_keeps_a_known_account() {
    let mut hub: Publisher<u32> = Publisher::initialize();
    hub.load_account(s("acct_A"), 1);
    assert_eq!(connect(&mut hub, "acct_A", "d1", 1), Ok(()));
    hub.load_account(s("acct_A"), 5);
    assert_eq!(connect(&mut hub, "acct_A", "d2", 2), Err(ConnectError::Admission));
    assert_eq!(hub.account_activity(&GetAccountActivity(s("acct_A"))).unwrap().len(), 1);
}

#[test]
fn disconnect_frees_a_place() {
    let mut hub = two_devices();
    assert_eq!(connect(&mut hub, "acct_A", "d3", 3), Err(ConnectError::Admission));
    hub.disconnect(&Disconnect { account_id: s("acct_A"), device_type_id: s("devt_1"), device_id: s("d2") });
    assert_eq!(connect(&mut hub, "acct_A", "d3", 3), Ok(()));
    assert_eq!(hub.session(&s("d3")), Some(&3));
}

#[test]
fn disconnect_of_unknown_account_drops_the_session_only() {
    let mut hub = two_devices();
    let known = hub.disconnect(&Disconnect {
        account_id: s("acct_B"),
        device_type_id: s("devt_1"),
        device_id: s("d1"),
    });
    assert!(!known);
    assert!(hub.session(&s("d1")).is_none());
    assert_eq!(hub.account_activity(&GetAccountActivity(s("acct_A"))).unwrap().len(), 2);
}

#[test]
fn reconnect_replaces_the_handle() {
    let mut hub: Publisher<u32> = Publisher::initialize();
    hub.load_account(s("acct_A"), 3);
    assert_eq!(connect(&mut hub, "acct_A", "d1", 1), Ok(()));
    assert_eq!(connect(&mut hub, "acct_A", "d1", 9), Ok(()));
    assert_eq!(hub.session(&s("d1")), Some(&9));
    assert_eq!(hub.account_activity(&GetAccountActivity(s("acct_A"))).unwrap().len(), 1);
}

#[test]
fn registration_is_idempotent() {
    let mut hub = two_devices();
    for _ in 0..5 {
        register(&mut hub, "acct_A", "d2", &["t1", "t1"], &[true, true]);
    }
    let delivery = hub.publish(&from_device("acct_A", "d1", &["t1", "t1"]));
    assert_eq!(delivery.recipients, vec![s("d2")]);
}

#[test]
fn refused_topics_are_passed_over() {
    let mut hub: Publisher<u32> = Publisher::initialize();
    hub.topic_relations_refresh(Some(vec![relation("t1", "acct_A"), relation("t2", "acct_A")]));
    hub.load_account(s("acct_A"), 5);
    assert_eq!(connect(&mut hub, "acct_A", "d1", 1), Ok(()));
    assert_eq!(connect(&mut hub, "acct_A", "d2", 2), Ok(()));
    // t1 refused, t2 granted, t3 has no answer
    register(&mut hub, "acct_A", "d2", &["t1", "t2", "t3"], &[false, true]);
    assert!(hub.publish(&from_device("acct_A", "d1", &["t1"])).recipients.is_empty());
    assert_eq!(hub.publish(&from_device("acct_A", "d1", &["t2"])).recipients, vec![s("d2")]);
    assert!(hub.publish(&from_device("acct_A", "d1", &["t3"])).recipients.is_empty());
}

#[test]
fn stale_subscription_is_not_delivered() {
    let mut hub = two_devices();
    hub.disconnect(&Disconnect { account_id: s("acct_A"), device_type_id: s("devt_1"), device_id: s("d2") });
    let delivery = hub.publish(&from_device("acct_A", "d1", &["t1"]));
    assert!(delivery.recipients.is_empty());
}

#[test]
fn refresh_overwrites_the_allow_list() {
    let mut hub = two_devices();
    assert_eq!(hub.publish(&from_device("acct_A", "d1", &["t1"])).recipients, vec![s("d2")]);
    // the relation is gone from the store
    hub.topic_relations_refresh(Some(vec![relation("t9", "acct_A")]));
    assert!(hub.publish(&from_device("acct_A", "d1", &["t1"])).recipients.is_empty());
    // a failed load changes nothing
    hub.topic_relations_refresh(None);
    assert!(hub.publish(&from_device("acct_A", "d1", &["t1"])).recipients.is_empty());
    // the relation is back
    hub.topic_relations_refresh(Some(vec![relation("t9", "acct_A"), relation("t1", "acct_A")]));
    assert_eq!(hub.publish(&from_device("acct_A", "d1", &["t1"])).recipients, vec![s("d2")]);
}

#[test]
fn allow_list_of_another_tenant_does_not_count() {
    let mut hub = two_devices();
    hub.load_account(s("acct_B"), 2);
    assert_eq!(connect(&mut hub, "acct_B", "b1", 7), Ok(()));
    // acct_B has no allow-list entry for t1
    let delivery = hub.publish(&from_device("acct_B", "b1", &["t1"]));
    assert!(delivery.recipients.is_empty());
    // and b1, subscribed to nothing, gets nothing from acct_A
    let delivery = hub.publish(&from_device("acct_A", "d1", &["t1"]));
    assert_eq!(delivery.recipients, vec![s("d2")]);
}

#[test]
fn each_recipient_once_over_several_topics() {
    let mut hub: Publisher<u32> = Publisher::initialize();
    hub.topic_relations_refresh(Some(vec![relation("t1", "acct_A"), relation("t2", "acct_A")]));
    hub.load_account(s("acct_A"), 5);
    for (device, handle) in [("d1", 1), ("d2", 2), ("d3", 3)] {
        assert_eq!(connect(&mut hub, "acct_A", device, handle), Ok(()));
    }
    register(&mut hub, "acct_A", "d2", &["t1", "t2"], &[true, true]);
    register(&mut hub, "acct_A", "d3", &["t2"], &[true]);
    register(&mut hub, "acct_A", "d1", &["t1"], &[true]);
    let delivery = hub.publish(&from_device("acct_A", "d1", &["t1", "t2"]));
    assert_eq!(sorted(delivery.recipients), vec![s("d2"), s("d3")]);
}

#[test]
fn shutdown_names_every_session_once() {
    let hub = two_devices();
    assert_eq!(sorted(hub.shutdown()), vec![s("d1"), s("d2")]);
    // the registry stays as it is
    assert_eq!(hub.session(&s("d1")), Some(&1));
    let empty: Publisher<u32> = Publisher::initialize();
    assert!(empty.shutdown().is_empty());
}

#[test]
fn tenants_with_their_own_topics_stay_apart() {
    let mut hub: Publisher<u32> = Publisher::initialize();
    hub.topic_relations_refresh(Some(vec![relation("ta", "acct_A"), relation("tb", "acct_B")]));
    hub.load_account(s("acct_A"), 2);
    hub.load_account(s("acct_B"), 2);
    assert_eq!(connect(&mut hub, "acct_A", "a1", 1), Ok(()));
    assert_eq!(connect(&mut hub, "acct_A", "a2", 2), Ok(()));
    assert_eq!(connect(&mut hub, "acct_B", "b1", 3), Ok(()));
    // the store grants each tenant its own topic only
    register(&mut hub, "acct_A", "a2", &["ta", "tb"], &[true, false]);
    register(&mut hub, "acct_B", "b1", &["ta", "tb"], &[false, true]);
    assert_eq!(hub.publish(&from_device("acct_A", "a1", &["ta", "tb"])).recipients, vec![s("a2")]);
    assert_eq!(hub.publish(&from_outside("acct_B", &["ta", "tb"])).recipients, vec![s("b1")]);
}
