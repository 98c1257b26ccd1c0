//! The rows of the store, as they are read and as they are written.
use std::time::SystemTime;
use vstd::prelude::*;

verus! {

/// A tenant's row.
pub struct Account {
    pub id: String,
    pub secret_key: String,
    pub cipher_iv: String,
    pub created_at: SystemTime,
    pub updated_at: SystemTime,
    pub max_requests_per_minute: i32,
    pub max_connections: i32,
}

pub struct NewAccount<'a> {
    pub id: &'a str,
    pub secret_key: &'a str,
    pub cipher_iv: &'a str,
}

pub struct DeviceType {
    pub id: String,
    pub account_id: String,
    pub name: String,
    pub created_at: SystemTime,
    pub updated_at: SystemTime,
    pub description: Option<String>,
}

pub struct NewDeviceType<'a> {
    pub id: &'a str,
    pub account_id: &'a str,
    pub name: &'a str,
    pub description: Option<&'a str>,
}

pub struct Devices {
    pub id: String,
    pub device_type_id: String,
    pub created_at: SystemTime,
    pub updated_at: SystemTime,
}

pub struct NewDevice<'a> {
    pub id: &'a str,
    pub device_type_id: &'a str,
}

pub struct Topic {
    pub id: String,
    pub account_id: String,
    pub name: String,
    pub description: Option<String>,
    pub created_at: SystemTime,
    pub updated_at: SystemTime,
}

pub struct NewTopic<'a> {
    pub id: &'a str,
    pub account_id: &'a str,
    pub name: &'a str,
    pub description: Option<&'a str>,
}

pub struct Webhook {
    pub id: i32,
    pub account_id: String,
    pub url: String,
    pub created_at: SystemTime,
    pub updated_at: SystemTime,
}

pub struct NewWebhook<'a> {
    pub account_id: &'a str,
    pub url: &'a str,
}

pub struct WebhookTopic {
    pub id: i32,
    pub endpoint_id: i32,
    pub topic_id: String,
    pub created_at: SystemTime,
    pub updated_at: SystemTime,
}

/// A binding of a topic to a webhook, joined with the topic it binds.
pub struct BoundTopic {
    pub id: i32,
    pub webhook_id: i32,
    pub topic_id: String,
    pub name: String,
    pub description: Option<String>,
    pub created_at: SystemTime,
    pub updated_at: SystemTime,
}

pub struct NewWebhookTopic<'a> {
    pub webhook_id: i32,
    pub topic_id: &'a str,
}

pub struct Log {
    pub id: i32,
    pub account_id: String,
    pub level: String,
    pub data: Option<serde_json::Value>,
    pub created_at: SystemTime,
    pub updated_at: SystemTime,
}

pub struct NewLog<'a> {
    pub account_id: &'a str,
    pub level: &'a str,
    pub data: Option<serde_json::Value>,
}

} // verus!
