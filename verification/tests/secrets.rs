use device_hub::account::{
    connection_cap, create_account, get_account, get_api_key, rate_ceiling, read_api_key, read_cipher_key,
    read_iv, seal_api_key, SecretError,
};
use device_hub::auth::{
    authenticate_connection, credentials_outcome, signature_matches, validate_api_key, verify_hmac_sigature,
    AuthError, SignatureError,
};
use device_hub::crypto::{check_fits, cipher_fits, hex_fits, plain_fits};
use device_hub::models::Account;
use std::time::{Duration, SystemTime};

const CIPHER_KEY: &str = "603deb1015ca71be2b73aef0857d77811f352c073b6108d72d9810a30914dff4";

fn row(secret_key: &str, cipher_iv: &str) -> Account {
    Account {
        id: "acct_A".to_string(),
        secret_key: secret_key.to_string(),
        cipher_iv: cipher_iv.to_string(),
        created_at: SystemTime::UNIX_EPOCH + Duration::from_secs(1_600_000_000),
        updated_at: SystemTime::UNIX_EPOCH + Duration::from_secs(1_600_000_001),
        max_requests_per_minute: 100,
        max_connections: 2,
    }
}

fn iv() -> Vec<u8> {
    (0u8..16).collect()
}

#[test]
fn sealed_key_opens_again() {
    let sealed = seal_api_key("my-api-key", &iv(), CIPHER_KEY).unwrap();
    assert_eq!(sealed.cipher_iv, "000102030405060708090A0B0C0D0E0F");
    // one padded block, in upper-case hexadecimal
    assert_eq!(sealed.secret_key.len(), 32);
    assert!(sealed.secret_key.chars().all(|c| c.is_ascii_digit() || ('A'..='F').contains(&c)));
    let account = row(&sealed.secret_key, &sealed.cipher_iv);
    let opened = get_api_key(&account, CIPHER_KEY).unwrap();
    assert_eq!(opened.api_key, "my-api-key");
}

#[test]
fn sealing_is_the_known_cipher() {
    // AES-256 in CBC mode, first block of the NIST vector, then the padding block
    let sealed = seal_api_key("", &iv(), CIPHER_KEY).unwrap();
    let open = get_api_key(&row(&sealed.secret_key, &sealed.cipher_iv), CIPHER_KEY).unwrap();
    assert_eq!(open.api_key, "");
    let other_iv: Vec<u8> = (1u8..17).collect();
    let other = seal_api_key("", &other_iv, CIPHER_KEY).unwrap();
    assert_ne!(sealed.secret_key, other.secret_key);
}

#[test]
fn sealing_refuses_bad_key_and_vector() {
    assert_eq!(seal_api_key("k", &iv(), "zz").err(), Some(SecretError::CipherKey));
    assert_eq!(seal_api_key("k", &iv(), "603deb").err(), Some(SecretError::CipherKey));
    assert_eq!(seal_api_key("k", &iv(), &CIPHER_KEY.to_uppercase()).err(), Some(SecretError::CipherKey));
    assert_eq!(seal_api_key("k", &[1, 2, 3], CIPHER_KEY).err(), Some(SecretError::Iv));
}

#[test]
fn new_account_has_sealed_secrets() {
    let sealed = create_account(CIPHER_KEY).unwrap();
    assert_eq!(sealed.cipher_iv.len(), 32);
    let opened = get_api_key(&row(&sealed.secret_key, &sealed.cipher_iv), CIPHER_KEY).unwrap();
    assert_eq!(opened.api_key.len(), 64);
    assert!(opened.api_key.chars().all(|c| c.is_ascii_alphanumeric()));
    assert_eq!(create_account("not hex").err(), Some(SecretError::CipherKey));
}

#[test]
fn opening_names_what_is_wrong() {
    let sealed = seal_api_key("my-api-key", &iv(), CIPHER_KEY).unwrap();
    assert_eq!(get_api_key(&row("xyz", &sealed.cipher_iv), CIPHER_KEY).err(), Some(SecretError::SecretKey));
    assert_eq!(get_api_key(&row(&sealed.secret_key, "0001"), CIPHER_KEY).err(), Some(SecretError::Iv));
    assert_eq!(get_api_key(&row(&sealed.secret_key, "q"), CIPHER_KEY).err(), Some(SecretError::Iv));
    assert_eq!(
        get_api_key(&row(&sealed.secret_key, &sealed.cipher_iv), "abcd").err(),
        Some(SecretError::CipherKey)
    );
    // half a block is no ciphertext
    assert_eq!(
        get_api_key(&row("00112233", &sealed.cipher_iv), CIPHER_KEY).err(),
        Some(SecretError::Cipher)
    );
}

#[test]
fn api_key_is_checked_against_the_row() {
    let sealed = seal_api_key("my-api-key", &iv(), CIPHER_KEY).unwrap();
    let account = row(&sealed.secret_key, &sealed.cipher_iv);
    assert_eq!(validate_api_key(&account, "my-api-key", CIPHER_KEY), Ok(true));
    assert_eq!(validate_api_key(&account, "my-api-kez", CIPHER_KEY), Ok(false));
    assert_eq!(validate_api_key(&account, "my-api-key", "00"), Err(SecretError::CipherKey));
    assert_eq!(
        validate_api_key(&row(&sealed.secret_key, "00"), "my-api-key", CIPHER_KEY),
        Err(SecretError::Iv)
    );
}

#[test]
fn connection_is_authenticated_by_its_credentials() {
    let sealed = seal_api_key("my-api-key", &iv(), CIPHER_KEY).unwrap();
    let account = row(&sealed.secret_key, &sealed.cipher_iv);
    assert_eq!(
        authenticate_connection(&account, "acct_A", Some("my-api-key"), CIPHER_KEY),
        Ok("acct_A".to_string())
    );
    assert_eq!(
        authenticate_connection(&account, "acct_A", Some("wrong"), CIPHER_KEY),
        Err(AuthError::Unauthorized)
    );
    assert_eq!(authenticate_connection(&account, "acct_A", None, CIPHER_KEY), Err(AuthError::NoPassword));
    assert_eq!(
        authenticate_connection(&account, "acct_A", Some("my-api-key"), "x"),
        Err(AuthError::Secret(SecretError::CipherKey))
    );
    assert_eq!(credentials_outcome("a", Ok(true)), Ok("a".to_string()));
    assert_eq!(credentials_outcome("a", Ok(false)), Err(AuthError::Unauthorized));
    assert_eq!(credentials_outcome("a", Err(SecretError::Cipher)), Err(AuthError::Secret(SecretError::Cipher)));
}

#[test]
fn signature_is_the_hmac_of_path_account_and_time() {
    // HMAC-SHA256("key", "The quick brown fox jumps over the lazy dog")
    let signature = "f7bc83f430538424b13298e6aa6fb143ef4d59a14946175997479dbc2d1a3cd8";
    assert_eq!(
        verify_hmac_sigature("The quick brown fox ", "jumps over ", "the lazy dog", signature, "key"),
        Ok(true)
    );
    assert_eq!(
        verify_hmac_sigature("The quick brown fox ", "jumps over ", "the lazy dog", signature, "kez"),
        Ok(false)
    );
    assert_eq!(
        verify_hmac_sigature("The quick brown fox ", "jumps over", " the lazy dog", signature, "key"),
        Ok(true)
    );
    assert_eq!(
        verify_hmac_sigature("/message", "acct_A", "1600000000", signature, "key"),
        Ok(false)
    );
}

#[test]
fn malformed_signature_is_told_apart() {
    assert_eq!(verify_hmac_sigature("/p", "a", "1", "not hex", "key"), Err(SignatureError::Encoding));
    assert_eq!(verify_hmac_sigature("/p", "a", "1", "F7BC", "key"), Err(SignatureError::Encoding));
    assert_eq!(verify_hmac_sigature("/p", "a", "1", "f7bc", "key"), Err(SignatureError::Length));
    assert_eq!(verify_hmac_sigature("/p", "a", "1", "", "key"), Err(SignatureError::Length));
    assert_eq!(signature_matches(&[1, 2], &[1, 2]), Ok(true));
    assert_eq!(signature_matches(&[1, 2], &[1, 3]), Ok(false));
    assert_eq!(signature_matches(&[1, 2], &[1]), Err(SignatureError::Length));
}

#[test]
fn account_row_is_shown_with_its_limits() {
    let data = get_account(row("AA", "BB")).unwrap();
    assert_eq!(data.id, "acct_A");
    assert_eq!(data.max_requests_per_minute, 100);
    assert_eq!(data.max_connections, 2);
    assert_eq!(data.created_at, 1_600_000_000);
    let mut early = row("AA", "BB");
    early.created_at = SystemTime::UNIX_EPOCH - Duration::from_secs(1);
    assert!(get_account(early).is_none());
}

#[test]
fn negative_limits_allow_nothing() {
    assert_eq!(connection_cap(2), 2);
    assert_eq!(connection_cap(0), 0);
    assert_eq!(connection_cap(-1), 0);
    assert_eq!(rate_ceiling(100), 100);
    assert_eq!(rate_ceiling(-5), 0);
}

#[test]
fn decrypted_bytes_must_be_text() {
    assert_eq!(read_api_key(b"key".to_vec()).ok().unwrap().api_key, "key");
    assert_eq!(read_api_key(vec![0xff, 0xfe]).err(), Some(SecretError::Text));
}

#[test]
fn key_and_vector_are_read_from_hexadecimal() {
    assert_eq!(read_cipher_key(CIPHER_KEY).unwrap()[..4], [0x60, 0x3d, 0xeb, 0x10]);
    assert_eq!(read_cipher_key(CIPHER_KEY).unwrap().len(), 32);
    assert!(read_cipher_key("").is_none());
    assert!(read_cipher_key(&CIPHER_KEY[..62]).is_none());
    assert_eq!(read_iv("000102030405060708090A0B0C0D0E0F").unwrap(), iv());
    assert!(read_iv("000102030405060708090a0b0c0d0e0f").is_none());
    assert!(read_iv("0001020304050607").is_none());
}

#[test]
fn limits_of_cipher_and_hexadecimal() {
    assert!(cipher_fits(0));
    assert!(cipher_fits(1 << 20));
    assert!(!cipher_fits(usize::MAX));
    assert!(plain_fits(64));
    assert!(plain_fits(1 << 20));
    assert!(!plain_fits(usize::MAX / 512));
    assert!(!plain_fits(usize::MAX));
    assert!(check_fits(1 << 20));
    assert!(!check_fits(usize::MAX / 64));
    assert!(hex_fits(64));
    assert!(hex_fits(usize::MAX / 32));
    assert!(!hex_fits(usize::MAX / 32 + 1));
}

#[test]
fn stored_secret_of_another_length_does_not_match() {
    let sealed = seal_api_key("my-api-key", &iv(), CIPHER_KEY).unwrap();
    let mut longer = sealed.secret_key.clone();
    longer.push_str("00");
    assert_eq!(validate_api_key(&row(&longer, &sealed.cipher_iv), "my-api-key", CIPHER_KEY), Ok(false));
    assert_eq!(validate_api_key(&row("", &sealed.cipher_iv), "my-api-key", CIPHER_KEY), Ok(false));
    let lower = sealed.secret_key.to_lowercase();
    assert_eq!(validate_api_key(&row(&lower, &sealed.cipher_iv), "my-api-key", CIPHER_KEY), Ok(false));
    let mut other = sealed.secret_key.clone().into_bytes();
    other[0] = if other[0] == b'0' { b'1' } else { b'0' };
    let other = String::from_utf8(other).unwrap();
    assert_eq!(validate_api_key(&row(&other, &sealed.cipher_iv), "my-api-key", CIPHER_KEY), Ok(false));
}
