//! Who may connect and which control-plane requests are genuine.
use crate::account::{cipher_key_of, read_cipher_key, read_iv, stored_iv_of, SecretError};
use crate::crypto::{
    aes_256_cbc_encrypt, aes_256_cbc_encrypted, check_fits, constant_time_eq, hex_fits, hex_upper,
    hmac_sha256, hmac_sha256_sign, lemma_hex_len, lemma_hex_upper_is_injective, max_checked_bytes,
    max_decoded_chars, read_hex_lower, read_hex_upper, unhex_lower,
};
use crate::models;
use vstd::prelude::*;

verus! {

/// Why a connection is turned away before a session is made.
#[derive(Clone, Copy, Debug, PartialEq, Eq, Structural)]
pub enum AuthError {
    /// The credentials are not those of the account.
    Unauthorized,
    /// The credentials carry no password.
    NoPassword,
    /// The stored secret or the cipher key could not be used.
    Secret(SecretError),
}

/// Why a signature could not be checked.
#[derive(Clone, Copy, Debug, PartialEq, Eq, Structural)]
pub enum SignatureError {
    /// The signature is not lower-case hexadecimal.
    Encoding,
    /// The signature is too long to be read, or has not the length of the
    /// authentication code.
    Length,
    /// No authentication code could be computed.
    Mac,
}

/// Whether a ciphertext, written in upper-case hexadecimal, is the one
/// that the account's row holds. The stored text is read back to bytes
/// and the bytes are compared in time that does not depend on what they
/// hold; only a difference in length is told apart early.
pub fn matches_stored(ciphertext: &[u8], account: &models::Account) -> (same: bool)
    requires
        2 * ciphertext@.len() <= max_decoded_chars(),
    ensures
        same == (hex_upper(ciphertext@) == account.secret_key@),
{
    let stored = account.secret_key.as_str();
    proof {
        lemma_hex_len(ciphertext@);
    }
    if stored.unicode_len() != 2 * ciphertext.len() {
        return false;
    }
    match read_hex_upper(stored) {
        Some(bytes) => {
            proof {
                lemma_hex_len(bytes@);
                if hex_upper(ciphertext@) == stored@ {
                    lemma_hex_upper_is_injective(ciphertext@, bytes@);
                }
            }
            constant_time_eq(ciphertext, bytes.as_slice())
        },
        None => {
            assert(hex_upper(ciphertext@) != stored@);
            false
        },
    }
}

/// Whether a text has more bytes than can be held against a stored
/// ciphertext.
pub open spec fn too_long_to_check(api_key: Seq<char>) -> bool {
    vstd::utf8::encode_utf8(api_key).len() > max_checked_bytes()
}

/// Whether sealing `api_key` under `key` and `iv` gives the ciphertext
/// that the account's row holds.
pub open spec fn seals_to_stored(
    account: models::Account,
    api_key: Seq<char>,
    iv: Seq<u8>,
    key: Seq<u8>,
) -> bool {
    hex_upper(aes_256_cbc_encrypted(key, iv, vstd::utf8::encode_utf8(api_key))) == account.secret_key@
}

/// Checks an API key against an account's row: the key is good when
/// sealing it under the cipher key and the stored vector gives the stored
/// ciphertext.
///
/// The checks come in this order, and the first that fails names the
/// error: `Iv` for a stored vector that does not spell 16 bytes,
/// `CipherKey` for a key text that does not spell 32 bytes, `TooLong` for
/// an API key of more bytes than can be checked. Then the cipher
/// decides: its error is `Cipher`.
pub fn validate_api_key(account: &models::Account, api_key: &str, api_cipher_key: &str) -> (valid: Result<
    bool,
    SecretError,
>)
    ensures
        match (stored_iv_of(account.cipher_iv@), cipher_key_of(api_cipher_key@)) {
            (None, _) => valid == Err::<bool, SecretError>(SecretError::Iv),
            (Some(_), None) => valid == Err::<bool, SecretError>(SecretError::CipherKey),
            (Some(iv), Some(key)) => if too_long_to_check(api_key@) {
                valid == Err::<bool, SecretError>(SecretError::TooLong)
            } else {
                match valid {
                    Ok(good) => good == seals_to_stored(*account, api_key@, iv, key),
                    Err(why) => why == SecretError::Cipher,
                }
            },
        },
{
    let iv = match read_iv(account.cipher_iv.as_str()) {
        Some(bytes) => bytes,
        None => {
            return Err(SecretError::Iv);
        },
    };
    let key = match read_cipher_key(api_cipher_key) {
        Some(bytes) => bytes,
        None => {
            return Err(SecretError::CipherKey);
        },
    };
    let plain = api_key.as_bytes();
    if !check_fits(plain.len()) {
        return Err(SecretError::TooLong);
    }
    match aes_256_cbc_encrypt(key.as_slice(), iv.as_slice(), plain) {
        Some(ciphertext) => Ok(matches_stored(ciphertext.as_slice(), account)),
        None => Err(SecretError::Cipher),
    }
}

/// What a check of credentials leads to: the account id for a key that
/// is good, a refusal for one that is not, and the reason where the check
/// could not be made.
pub fn credentials_outcome(user_id: &str, checked: Result<bool, SecretError>) -> (account_id: Result<
    String,
    AuthError,
>)
    ensures
        match checked {
            Ok(true) => account_id matches Ok(id) && id@ == user_id@,
            Ok(false) => account_id == Err::<String, AuthError>(AuthError::Unauthorized),
            Err(why) => account_id == Err::<String, AuthError>(AuthError::Secret(why)),
        },
{
    match checked {
        Ok(true) => Ok(user_id.to_owned()),
        Ok(false) => Err(AuthError::Unauthorized),
        Err(why) => Err(AuthError::Secret(why)),
    }
}

/// Authenticates a connection by its basic credentials against the
/// account's row. Credentials without a password are turned away; with
/// one, the check of the password as the API key decides.
pub fn authenticate_connection(
    account: &models::Account,
    user_id: &str,
    password: Option<&str>,
    api_cipher_key: &str,
) -> (account_id: Result<String, AuthError>)
    ensures
        match password {
            None => account_id == Err::<String, AuthError>(AuthError::NoPassword),
            Some(api_key) => match (stored_iv_of(account.cipher_iv@), cipher_key_of(api_cipher_key@)) {
                (None, _) => account_id == Err::<String, AuthError>(AuthError::Secret(SecretError::Iv)),
                (Some(_), None) => account_id == Err::<String, AuthError>(
                    AuthError::Secret(SecretError::CipherKey),
                ),
                (Some(iv), Some(key)) => if too_long_to_check(api_key@) {
                    account_id == Err::<String, AuthError>(AuthError::Secret(SecretError::TooLong))
                } else {
                    match account_id {
                        Ok(id) => id@ == user_id@ && seals_to_stored(*account, api_key@, iv, key),
                        Err(AuthError::Unauthorized) => !seals_to_stored(*account, api_key@, iv, key),
                        Err(why) => why == AuthError::Secret(SecretError::Cipher),
                    }
                },
            },
        },
{
    match password {
        None => Err(AuthError::NoPassword),
        Some(api_key) => credentials_outcome(user_id, validate_api_key(account, api_key, api_cipher_key)),
    }
}

/// The bytes that a control-plane request is signed over: path, account
/// id and time, one after the other.
pub open spec fn signed_message(url_path: Seq<char>, account_id: Seq<char>, time: Seq<char>) -> Seq<u8> {
    vstd::utf8::encode_utf8(url_path) + vstd::utf8::encode_utf8(account_id) + vstd::utf8::encode_utf8(time)
}

/// Whether a signature, decoded, is the authentication code.
///
/// `Length` comes exactly when the two differ in length.
pub fn signature_matches(code: &[u8], signature: &[u8]) -> (same: Result<bool, SignatureError>)
    ensures
        match same {
            Ok(good) => code@.len() == signature@.len() && good == (code@ == signature@),
            Err(SignatureError::Length) => code@.len() != signature@.len(),
            Err(_) => false,
        },
{
    if code.len() != signature.len() {
        return Err(SignatureError::Length);
    }
    Ok(constant_time_eq(code, signature))
}

/// Checks the signature of a control-plane request: the HMAC with
/// SHA-256, under `hmac_key`, of path, account id and time, against the
/// signature in lower-case hexadecimal.
///
/// The checks come in this order, and the first that fails names the
/// error: `Length` for a signature of more characters than can be read,
/// `Encoding` for one that is not lower-case hexadecimal, `Mac` for a key
/// of more bytes than the authentication code can be keyed with. Then
/// the authentication code decides: none gives `Mac`, one of another
/// length than the signature gives `Length`, and one of the same length
/// is compared with it.
pub fn verify_hmac_sigature(
    url_path: &str,
    account_id: &str,
    time: &str,
    signature: &str,
    hmac_key: &str,
) -> (valid: Result<bool, SignatureError>)
    ensures
        if signature@.len() > max_decoded_chars() {
            valid == Err::<bool, SignatureError>(SignatureError::Length)
        } else {
            match unhex_lower(signature@) {
                None => valid == Err::<bool, SignatureError>(SignatureError::Encoding),
                Some(given) => if vstd::utf8::encode_utf8(hmac_key@).len() > i32::MAX {
                    valid == Err::<bool, SignatureError>(SignatureError::Mac)
                } else {
                    let code = hmac_sha256(
                        vstd::utf8::encode_utf8(hmac_key@),
                        signed_message(url_path@, account_id@, time@),
                    );
                    match valid {
                        Ok(good) => given.len() == code.len() && good == (given == code),
                        Err(SignatureError::Length) => given.len() != code.len(),
                        Err(why) => why == SignatureError::Mac,
                    }
                },
            }
        },
{
    if !hex_fits(signature.unicode_len()) {
        return Err(SignatureError::Length);
    }
    let given = match read_hex_lower(signature) {
        Some(bytes) => bytes,
        None => {
            return Err(SignatureError::Encoding);
        },
    };
    let key = hmac_key.as_bytes();
    if key.len() > 0x7fff_ffff {
        return Err(SignatureError::Mac);
    }
    let mut message: Vec<u8> = Vec::new();
    message.extend_from_slice(url_path.as_bytes());
    message.extend_from_slice(account_id.as_bytes());
    message.extend_from_slice(time.as_bytes());
    proof {
        assert(message@ =~= signed_message(url_path@, account_id@, time@));
    }
    match hmac_sha256_sign(key, message.as_slice()) {
        Some(code) => signature_matches(code.as_slice(), given.as_slice()),
        None => Err(SignatureError::Mac),
    }
}

} // verus!
