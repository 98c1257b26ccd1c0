//! An in-memory publish/subscribe hub for fleets of connected devices.
//!
//! The hub keeps the registry of live sessions, the topic subscriptions and
//! the per-tenant allow-lists, and decides for every command what changes and
//! who is told. A session decides what each frame from its device leads to,
//! and the webhook publisher which addresses an event is posted to.
//!
//! The decisions are functions from plain values to plain values. Sockets
//! and the store stay with the caller: it hands in what it read and carries
//! out what comes back.
pub mod utils;
pub mod rate_limiter;
pub mod string_set;
pub mod string_map;
pub mod string_index;
pub mod models;
pub mod db;
pub mod logging;
pub mod crypto;
pub mod account;
pub mod auth;
pub mod websocket;
pub mod publisher;
pub mod webhook_publisher;
pub mod server;
