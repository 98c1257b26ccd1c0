//! What the HTTP front door decides: who gets a session, what a posted
//! event becomes, and which status a request is answered with.
use crate::auth::{AuthError, SignatureError};
use crate::publisher::{Device, PeerAddress, PublishMessage, Sender};
use crate::utils::CreatedAt;
use crate::websocket::Message;
use vstd::prelude::*;

verus! {

/// The address that the server listens on.
pub const BIND_ADDRESS: &'static str = "0.0.0.0:8080";

/// HTTP status: the request was carried out.
pub const STATUS_OK: u16 = 200;

/// HTTP status: the store refused the request.
pub const STATUS_BAD_REQUEST: u16 = 400;

/// HTTP status: the caller is not who it says.
pub const STATUS_UNAUTHORIZED: u16 = 401;

/// HTTP status: the device type is not the tenant's.
pub const STATUS_FORBIDDEN: u16 = 403;

/// The status that answers a request to the store: 200 when the store
/// carried it out, 400 when it did not.
pub fn return_result(carried_out: bool) -> (status: u16)
    ensures
        status == if carried_out {
            STATUS_OK
        } else {
            STATUS_BAD_REQUEST
        },
{
    if carried_out {
        STATUS_OK
    } else {
        STATUS_BAD_REQUEST
    }
}

/// Whether a control-plane request passes: only one whose signature was
/// checked and found good.
pub fn validator(signature: Result<bool, SignatureError>) -> (pass: bool)
    ensures
        pass == (signature == Ok::<bool, SignatureError>(true)),
{
    match signature {
        Ok(good) => good,
        Err(_) => false,
    }
}

/// The status that turns a connection away for its credentials, if they
/// do: 401 for any failure to authenticate.
pub fn credentials_status(credentials: &Result<String, AuthError>) -> (status: Option<u16>)
    ensures
        status == match *credentials {
            Ok(_) => None,
            Err(_) => Some(STATUS_UNAUTHORIZED),
        },
{
    match credentials {
        Ok(_) => None,
        Err(_) => Some(STATUS_UNAUTHORIZED),
    }
}

/// Whether an authenticated connection gets a session: the tenant's id
/// when the device type is the tenant's own, status 403 when it is not.
pub fn ws_index(account_id: String, device_type_is_tenants: bool) -> (gate: Result<String, u16>)
    ensures
        gate == if device_type_is_tenants {
            Ok::<String, u16>(account_id)
        } else {
            Err::<String, u16>(STATUS_FORBIDDEN)
        },
{
    if device_type_is_tenants {
        Ok(account_id)
    } else {
        Err(STATUS_FORBIDDEN)
    }
}

/// The publish command that an event posted over HTTP becomes: sent from
/// the caller's address, for the tenant named in the request, stamped
/// with the time of arrival.
pub fn message(
    account_id: String,
    peer: Option<PeerAddress>,
    topics: Vec<String>,
    data: serde_json::Value,
    time: CreatedAt,
) -> (command: PublishMessage)
    ensures
        command == (PublishMessage {
            sender: Sender::Address(peer),
            account_id,
            message: Message {
                seconds_since_unix: time.seconds_since_unix,
                nano_seconds: time.nano_seconds,
                topics,
                data,
            },
        }),
{
    PublishMessage {
        sender: Sender::Address(peer),
        account_id,
        message: Message {
            seconds_since_unix: time.seconds_since_unix,
            nano_seconds: time.nano_seconds,
            topics,
            data,
        },
    }
}

/// The devices to show for a tenant: those the hub listed, none for a
/// tenant that the hub does not know.
pub fn get_account_activity(activity: Option<Vec<Device>>) -> (devices: Vec<Device>)
    ensures
        devices@ == match activity {
            Some(list) => list@,
            None => Seq::<Device>::empty(),
        },
{
    match activity {
        Some(list) => list,
        None => Vec::new(),
    }
}

} // verus!
