use device_hub::account::SecretError;
use device_hub::auth::{AuthError, SignatureError};
use device_hub::publisher::{ConnectError, Device, PeerAddress, Sender};
use device_hub::server::{
    credentials_status, get_account_activity, message, return_result, validator, ws_index,
};
use device_hub::utils::CreatedAt;

#[test]
fn store_results_become_statuses() {
    assert_eq!(return_result(true), 200);
    assert_eq!(return_result(false), 400);
}

#[test]
fn only_a_good_signature_passes() {
    assert!(validator(Ok(true)));
    assert!(!validator(Ok(false)));
    assert!(!validator(Err(SignatureError::Encoding)));
    assert!(!validator(Err(SignatureError::Length)));
    assert!(!validator(Err(SignatureError::Mac)));
}

#[test]
fn bad_credentials_are_unauthorized() {
    assert_eq!(credentials_status(&Ok("acct_A".to_string())), None);
    assert_eq!(credentials_status(&Err(AuthError::Unauthorized)), Some(401));
    assert_eq!(credentials_status(&Err(AuthError::NoPassword)), Some(401));
    assert_eq!(credentials_status(&Err(AuthError::Secret(SecretError::Iv))), Some(401));
}

#[test]
fn foreign_device_type_is_forbidden() {
    assert_eq!(ws_index("acct_A".to_string(), true), Ok("acct_A".to_string()));
    assert_eq!(ws_index("acct_A".to_string(), false), Err(403));
}

#[test]
fn posted_event_comes_from_an_address() {
    let peer = PeerAddress { ip: "10.0.0.1".to_string(), port: 4000 };
    let command = message(
        "acct_A".to_string(),
        Some(peer),
        vec!["t1".to_string()],
        serde_json::Value::from(true),
        CreatedAt { seconds_since_unix: 12, nano_seconds: 34 },
    );
    assert_eq!(command.account_id, "acct_A");
    match command.sender {
        Sender::Address(Some(from)) => {
            assert_eq!(from.ip, "10.0.0.1");
            assert_eq!(from.port, 4000);
        }
        _ => panic!("expected an address"),
    }
    assert_eq!(command.message.seconds_since_unix, 12);
    assert_eq!(command.message.nano_seconds, 34);
    assert_eq!(command.message.topics, vec!["t1".to_string()]);
    assert_eq!(command.message.data, serde_json::Value::from(true));
}

#[test]
fn unknown_tenant_has_no_activity() {
    assert!(get_account_activity(None).is_empty());
    let shown = get_account_activity(Some(vec![Device::new("d1".to_string(), "devt_1".to_string())]));
    assert_eq!(shown.len(), 1);
    assert_eq!(shown[0].device_id(), "d1");
}

#[test]
fn refusals_in_words() {
    assert_eq!(ConnectError::Admission.as_str(), "Exceeded number of connections");
    assert_eq!(ConnectError::Transient.as_str(), "Unable to fetch account");
}
