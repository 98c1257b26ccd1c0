//! The shapes in which the store's rows reach the hub and the control
//! plane.
use crate::models;
use crate::utils::{checked_instant_to_seconds, datable, instant_to_seconds, seconds_of};
use vstd::prelude::*;

verus! {

/// Connections that the pool to the store holds.
pub const POOL_SIZE: u32 = 4;

/// One row of the store's allow-list: tenant `account_id` may use topic
/// `id`.
pub struct TopicRelation {
    pub id: String,
    pub account_id: String,
}

/// A device type as the control plane shows it.
pub struct DeviceType {
    pub id: String,
    pub name: String,
    pub description: Option<String>,
    pub created_at: u64,
}

/// A topic as the control plane shows it.
pub struct TopicType {
    pub id: String,
    pub account_id: String,
    pub name: String,
    pub description: Option<String>,
    pub created_at: u64,
    pub updated_at: u64,
}

/// A webhook as the control plane shows it.
pub struct WebhookType {
    pub id: i32,
    pub account_id: String,
    pub url: String,
    pub created_at: u64,
    pub updated_at: u64,
}

/// A topic bound to a webhook, as the control plane shows it.
pub struct WebhookTopic {
    pub id: i32,
    pub webhook_id: i32,
    pub topic_id: String,
    pub name: String,
    pub description: Option<String>,
    pub created_at: u64,
    pub updated_at: u64,
}

impl DeviceType {
    /// Whether a row can be shown: its dates lie at or after the epoch.
    pub open spec fn showable(row: models::DeviceType) -> bool {
        datable(row.created_at)
    }

    /// What a row of the store is shown as.
    pub open spec fn of_row(row: models::DeviceType) -> DeviceType {
        DeviceType {
            id: row.id,
            name: row.name,
            description: row.description,
            created_at: seconds_of(row.created_at),
        }
    }

    /// Whether a row can be shown.
    pub fn can_show(row: &models::DeviceType) -> (yes: bool)
        ensures
            yes == Self::showable(*row),
    {
        checked_instant_to_seconds(row.created_at).is_some()
    }

    /// Shows a row whose dates lie at or after the epoch.
    pub fn from_row(row: models::DeviceType) -> (shown: Self)
        requires
            Self::showable(row),
        ensures
            shown == Self::of_row(row),
    {
        DeviceType {
            id: row.id,
            name: row.name,
            description: row.description,
            created_at: instant_to_seconds(row.created_at),
        }
    }
}

/// Shows the device types of a tenant, row by row. A row that is dated
/// before the epoch cannot be shown: then there is no list.
pub fn get_device_types(rows: Vec<models::DeviceType>) -> (list: Option<Vec<DeviceType>>)
    ensures
        match list {
            Some(shown) => {
                &&& shown.len() == rows.len()
                &&& forall|i: int|
                    0 <= i < rows.len() ==> DeviceType::showable(#[trigger] rows[i]) && shown[i]
                        == DeviceType::of_row(rows[i])
            },
            None => exists|i: int| 0 <= i < rows.len() && !DeviceType::showable(#[trigger] rows[i]),
        },
{
    let mut i: usize = 0;
    while i < rows.len()
        invariant
            i <= rows.len(),
            forall|k: int| 0 <= k < i ==> DeviceType::showable(#[trigger] rows[k]),
        decreases rows.len() - i,
    {
        if !DeviceType::can_show(&rows[i]) {
            return None;
        }
        i += 1;
    }
    let ghost all = rows@;
    let mut shown: Vec<DeviceType> = Vec::new();
    for row in it: rows
        invariant
            forall|k: int| 0 <= k < all.len() ==> DeviceType::showable(#[trigger] all[k]),
            it.seq() == all,
            shown.len() == it.index(),
            forall|k: int| 0 <= k < it.index() ==> shown[k] == DeviceType::of_row(#[trigger] all[k]),
    {
        assert(0 <= it.index() < all.len());
        assert(row == all[it.index() as int]);
        shown.push(DeviceType::from_row(row));
    }
    Some(shown)
}

impl TopicType {
    /// Whether a row can be shown: its dates lie at or after the epoch.
    pub open spec fn showable(row: models::Topic) -> bool {
        datable(row.created_at) && datable(row.updated_at)
    }

    /// What a row of the store is shown as.
    pub open spec fn of_row(row: models::Topic) -> TopicType {
        TopicType {
            id: row.id,
            account_id: row.account_id,
            name: row.name,
            description: row.description,
            created_at: seconds_of(row.created_at),
            updated_at: seconds_of(row.updated_at),
        }
    }

    /// Whether a row can be shown.
    pub fn can_show(row: &models::Topic) -> (yes: bool)
        ensures
            yes == Self::showable(*row),
    {
        checked_instant_to_seconds(row.created_at).is_some() && checked_instant_to_seconds(
            row.updated_at,
        ).is_some()
    }

    /// Shows a row whose dates lie at or after the epoch.
    pub fn from_row(row: models::Topic) -> (shown: Self)
        requires
            Self::showable(row),
        ensures
            shown == Self::of_row(row),
    {
        TopicType {
            id: row.id,
            account_id: row.account_id,
            name: row.name,
            description: row.description,
            created_at: instant_to_seconds(row.created_at),
            updated_at: instant_to_seconds(row.updated_at),
        }
    }
}

/// Shows the topics of a tenant, row by row. A row that is dated
/// before the epoch cannot be shown: then there is no list.
pub fn get_topics(rows: Vec<models::Topic>) -> (list: Option<Vec<TopicType>>)
    ensures
        match list {
            Some(shown) => {
                &&& shown.len() == rows.len()
                &&& forall|i: int|
                    0 <= i < rows.len() ==> TopicType::showable(#[trigger] rows[i]) && shown[i]
                        == TopicType::of_row(rows[i])
            },
            None => exists|i: int| 0 <= i < rows.len() && !TopicType::showable(#[trigger] rows[i]),
        },
{
    let mut i: usize = 0;
    while i < rows.len()
        invariant
            i <= rows.len(),
            forall|k: int| 0 <= k < i ==> TopicType::showable(#[trigger] rows[k]),
        decreases rows.len() - i,
    {
        if !TopicType::can_show(&rows[i]) {
            return None;
        }
        i += 1;
    }
    let ghost all = rows@;
    let mut shown: Vec<TopicType> = Vec::new();
    for row in it: rows
        invariant
            forall|k: int| 0 <= k < all.len() ==> TopicType::showable(#[trigger] all[k]),
            it.seq() == all,
            shown.len() == it.index(),
            forall|k: int| 0 <= k < it.index() ==> shown[k] == TopicType::of_row(#[trigger] all[k]),
    {
        assert(0 <= it.index() < all.len());
        assert(row == all[it.index() as int]);
        shown.push(TopicType::from_row(row));
    }
    Some(shown)
}

impl WebhookType {
    /// Whether a row can be shown: its dates lie at or after the epoch.
    pub open spec fn showable(row: models::Webhook) -> bool {
        datable(row.created_at) && datable(row.updated_at)
    }

    /// What a row of the store is shown as.
    pub open spec fn of_row(row: models::Webhook) -> WebhookType {
        WebhookType {
            id: row.id,
            account_id: row.account_id,
            url: row.url,
            created_at: seconds_of(row.created_at),
            updated_at: seconds_of(row.updated_at),
        }
    }

    /// Whether a row can be shown.
    pub fn can_show(row: &models::Webhook) -> (yes: bool)
        ensures
            yes == Self::showable(*row),
    {
        checked_instant_to_seconds(row.created_at).is_some() && checked_instant_to_seconds(
            row.updated_at,
        ).is_some()
    }

    /// Shows a row whose dates lie at or after the epoch.
    pub fn from_row(row: models::Webhook) -> (shown: Self)
        requires
            Self::showable(row),
        ensures
            shown == Self::of_row(row),
    {
        WebhookType {
            id: row.id,
            account_id: row.account_id,
            url: row.url,
            created_at: instant_to_seconds(row.created_at),
            updated_at: instant_to_seconds(row.updated_at),
        }
    }
}

/// Shows the webhooks of a tenant, row by row. A row that is dated
/// before the epoch cannot be shown: then there is no list.
pub fn get_webhooks(rows: Vec<models::Webhook>) -> (list: Option<Vec<WebhookType>>)
    ensures
        match list {
            Some(shown) => {
                &&& shown.len() == rows.len()
                &&& forall|i: int|
                    0 <= i < rows.len() ==> WebhookType::showable(#[trigger] rows[i]) && shown[i]
                        == WebhookType::of_row(rows[i])
            },
            None => exists|i: int| 0 <= i < rows.len() && !WebhookType::showable(#[trigger] rows[i]),
        },
{
    let mut i: usize = 0;
    while i < rows.len()
        invariant
            i <= rows.len(),
            forall|k: int| 0 <= k < i ==> WebhookType::showable(#[trigger] rows[k]),
        decreases rows.len() - i,
    {
        if !WebhookType::can_show(&rows[i]) {
            return None;
        }
        i += 1;
    }
    let ghost all = rows@;
    let mut shown: Vec<WebhookType> = Vec::new();
    for row in it: rows
        invariant
            forall|k: int| 0 <= k < all.len() ==> WebhookType::showable(#[trigger] all[k]),
            it.seq() == all,
            shown.len() == it.index(),
            forall|k: int| 0 <= k < it.index() ==> shown[k] == WebhookType::of_row(#[trigger] all[k]),
    {
        assert(0 <= it.index() < all.len());
        assert(row == all[it.index() as int]);
        shown.push(WebhookType::from_row(row));
    }
    Some(shown)
}

impl WebhookTopic {
    /// Whether a row can be shown: its dates lie at or after the epoch.
    pub open spec fn showable(row: models::BoundTopic) -> bool {
        datable(row.created_at) && datable(row.updated_at)
    }

    /// What a row of the store is shown as.
    pub open spec fn of_row(row: models::BoundTopic) -> WebhookTopic {
        WebhookTopic {
            id: row.id,
            webhook_id: row.webhook_id,
            topic_id: row.topic_id,
            name: row.name,
            description: row.description,
            created_at: seconds_of(row.created_at),
            updated_at: seconds_of(row.updated_at),
        }
    }

    /// Whether a row can be shown.
    pub fn can_show(row: &models::BoundTopic) -> (yes: bool)
        ensures
            yes == Self::showable(*row),
    {
        checked_instant_to_seconds(row.created_at).is_some() && checked_instant_to_seconds(
            row.updated_at,
        ).is_some()
    }

    /// Shows a row whose dates lie at or after the epoch.
    pub fn from_row(row: models::BoundTopic) -> (shown: Self)
        requires
            Self::showable(row),
        ensures
            shown == Self::of_row(row),
    {
        WebhookTopic {
            id: row.id,
            webhook_id: row.webhook_id,
            topic_id: row.topic_id,
            name: row.name,
            description: row.description,
            created_at: instant_to_seconds(row.created_at),
            updated_at: instant_to_seconds(row.updated_at),
        }
    }
}

/// Shows the topics bound to a webhook, row by row. A row that is dated
/// before the epoch cannot be shown: then there is no list.
pub fn get_webhook_topics(rows: Vec<models::BoundTopic>) -> (list: Option<
    Vec<WebhookTopic>,
>)
    ensures
        match list {
            Some(shown) => {
                &&& shown.len() == rows.len()
                &&& forall|i: int|
                    0 <= i < rows.len() ==> WebhookTopic::showable(#[trigger] rows[i]) && shown[i]
                        == WebhookTopic::of_row(rows[i])
            },
            None => exists|i: int| 0 <= i < rows.len() && !WebhookTopic::showable(#[trigger] rows[i]),
        },
{
    let mut i: usize = 0;
    while i < rows.len()
        invariant
            i <= rows.len(),
            forall|k: int| 0 <= k < i ==> WebhookTopic::showable(#[trigger] rows[k]),
        decreases rows.len() - i,
    {
        if !WebhookTopic::can_show(&rows[i]) {
            return None;
        }
        i += 1;
    }
    let ghost all = rows@;
    let mut shown: Vec<WebhookTopic> = Vec::new();
    for row in it: rows
        invariant
            forall|k: int| 0 <= k < all.len() ==> WebhookTopic::showable(#[trigger] all[k]),
            it.seq() == all,
            shown.len() == it.index(),
            forall|k: int| 0 <= k < it.index() ==> shown[k] == WebhookTopic::of_row(#[trigger] all[k]),
    {
        assert(0 <= it.index() < all.len());
        assert(row == all[it.index() as int]);
        shown.push(WebhookTopic::from_row(row));
    }
    Some(shown)
}

/// The allow-list rows of the store: each (topic, tenant) pair as a
/// relation.
pub fn get_all_topic_relations(rows: Vec<(String, String)>) -> (relations: Vec<TopicRelation>)
    ensures
        relations.len() == rows.len(),
        forall|i: int|
            0 <= i < rows.len() ==> (#[trigger] relations[i]) == (TopicRelation {
                id: rows[i].0,
                account_id: rows[i].1,
            }),
{
    let ghost all = rows@;
    let mut relations: Vec<TopicRelation> = Vec::new();
    for row in it: rows
        invariant
            it.seq() == all,
            relations.len() == it.index(),
            forall|k: int|
                0 <= k < it.index() ==> (#[trigger] relations[k]) == (TopicRelation {
                    id: all[k].0,
                    account_id: all[k].1,
                }),
    {
        assert(0 <= it.index() < all.len());
        assert(row == all[it.index() as int]);
        relations.push(TopicRelation { id: row.0, account_id: row.1 });
    }
    relations
}

/// Whether a character is one of `0`..`9`, `a`..`f`.
pub open spec fn is_lower_hex(c: char) -> bool {
    ('0' <= c && c <= '9') || ('a' <= c && c <= 'f')
}

/// Whether a text is what a random identifier is written as: 32 lower-case
/// hexadecimal digits.
pub open spec fn is_simple_uuid(text: Seq<char>) -> bool {
    text.len() == 32 && forall|i: int| 0 <= i < 32 ==> is_lower_hex(#[trigger] text[i])
}

/// Calls `uuid::Uuid::new_v4` and writes the identifier in its simple
/// form (`to_simple`, `to_string`). Which identifier comes is left to
/// chance; the simple form is always 32 lower-case hexadecimal digits.
/// `new_v4` panics if the system's random source gives an error; no input
/// brings that about and none prevents it.
#[verifier::external_body]
fn generate_random_uuid() -> (text: String)
    ensures
        is_simple_uuid(text@),
{
    uuid::Uuid::new_v4().to_simple().to_string()
}

/// A prefix and an identifier, joined.
pub fn prefixed_id(prefix: &str, identifier: &str) -> (id: String)
    ensures
        id@ == prefix@ + identifier@,
{
    let mut id = prefix.to_owned();
    id.append(identifier);
    id
}

/// A fresh id for a device type: `devt_` and a random identifier.
pub fn new_device_type_id() -> (id: String)
    ensures
        exists|tail: Seq<char>| is_simple_uuid(tail) && id@ == "devt_"@ + tail,
{
    let tail = generate_random_uuid();
    prefixed_id("devt_", tail.as_str())
}

/// A fresh id for a topic: `top_` and a random identifier.
pub fn new_topic_id() -> (id: String)
    ensures
        exists|tail: Seq<char>| is_simple_uuid(tail) && id@ == "top_"@ + tail,
{
    let tail = generate_random_uuid();
    prefixed_id("top_", tail.as_str())
}

/// The row to insert for a new device type.
pub fn create_device_type<'a>(
    id: &'a str,
    name: &'a str,
    account_id: &'a str,
    description: Option<&'a str>,
) -> (row: models::NewDeviceType<'a>)
    ensures
        row == (models::NewDeviceType { id, account_id, name, description }),
{
    models::NewDeviceType { id, account_id, name, description }
}

/// The row to insert for a device that connects.
pub fn create_device<'a>(id: &'a str, device_type_id: &'a str) -> (row: models::NewDevice<'a>)
    ensures
        row == (models::NewDevice { id, device_type_id }),
{
    models::NewDevice { id, device_type_id }
}

/// The row to insert for a new topic.
pub fn create_topic<'a>(
    id: &'a str,
    name: &'a str,
    account_id: &'a str,
    description: Option<&'a str>,
) -> (row: models::NewTopic<'a>)
    ensures
        row == (models::NewTopic { id, account_id, name, description }),
{
    models::NewTopic { id, account_id, name, description }
}

/// The row to insert for a new webhook.
pub fn create_webhook<'a>(account_id: &'a str, url: &'a str) -> (row: models::NewWebhook<'a>)
    ensures
        row == (models::NewWebhook { account_id, url }),
{
    models::NewWebhook { account_id, url }
}

/// The row to insert for a topic bound to a webhook.
pub fn create_webhook_topic<'a>(webhook_id: i32, topic_id: &'a str) -> (row: models::NewWebhookTopic<'a>)
    ensures
        row == (models::NewWebhookTopic { webhook_id, topic_id }),
{
    models::NewWebhookTopic { webhook_id, topic_id }
}

/// What the store's answer to "does this relation exist" counts as: a
/// plain yes is yes, a no and a failed query are both no.
pub fn topic_relation_exists(answer: Option<bool>) -> (exists_: bool)
    ensures
        exists_ == (answer == Some(true)),
{
    match answer {
        Some(true) => true,
        _ => false,
    }
}

} // verus!
