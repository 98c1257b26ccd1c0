//! A tenant's account: its limits, and its API key, which the store holds
//! only encrypted.
use crate::crypto::{
    aes_256_cbc_decrypt, aes_256_cbc_decrypted, aes_256_cbc_encrypt, aes_256_cbc_encrypted, cipher_fits,
    hex_fits,
    hex_upper, hex_upper_encode, is_alphanumeric, lemma_hex_len, max_cipher_bytes, max_decoded_chars,
    max_plain_bytes, plain_fits, random_api_key, random_iv, read_hex_lower, read_hex_upper,
    string_from_utf8, unhex_lower, unhex_upper, API_KEY_CHARS, IV_BYTES, KEY_BYTES,
};
use crate::models;
use crate::utils::{checked_instant_to_seconds, datable, instant_to_seconds, seconds_of};
use vstd::prelude::*;

verus! {

/// What a sign-up form carries.
pub struct SignupParams {
    pub email: String,
    pub password: String,
    pub password_confirmation: String,
}

/// An API key in the clear.
pub struct ApiKeyResult {
    pub api_key: String,
}

/// An account as the control plane shows it.
pub struct AccountData {
    pub id: String,
    pub max_requests_per_minute: i32,
    pub max_connections: i32,
    pub created_at: u64,
}

/// An API key as the store holds it: the ciphertext and the
/// initialization vector, both in upper-case hexadecimal.
pub struct Sealed {
    pub secret_key: String,
    pub cipher_iv: String,
}

/// Why a secret could not be sealed or opened.
#[derive(Clone, Copy, Debug, PartialEq, Eq, Structural)]
pub enum SecretError {
    /// The cipher key is not 32 bytes in lower-case hexadecimal.
    CipherKey,
    /// The initialization vector is not 16 bytes (in upper-case
    /// hexadecimal, where it is text).
    Iv,
    /// The stored ciphertext is not upper-case hexadecimal.
    SecretKey,
    /// The cipher gave an error.
    Cipher,
    /// What was decrypted is not text.
    Text,
    /// No random bytes could be had.
    Random,
    /// The text is longer than the cipher or the hexadecimal reader
    /// takes.
    TooLong,
}

/// The AES-256 key that a text spells: 32 bytes in lower-case
/// hexadecimal.
pub open spec fn cipher_key_of(text: Seq<char>) -> Option<Seq<u8>> {
    match unhex_lower(text) {
        Some(key) => if key.len() == KEY_BYTES {
            Some(key)
        } else {
            None
        },
        None => None,
    }
}

/// The initialization vector that a text spells: 16 bytes in upper-case
/// hexadecimal.
pub open spec fn stored_iv_of(text: Seq<char>) -> Option<Seq<u8>> {
    match unhex_upper(text) {
        Some(iv) => if iv.len() == IV_BYTES {
            Some(iv)
        } else {
            None
        },
        None => None,
    }
}

/// Reads the cipher key from its text.
pub fn read_cipher_key(text: &str) -> (key: Option<Vec<u8>>)
    ensures
        match key {
            Some(bytes) => cipher_key_of(text@) == Some(bytes@),
            None => cipher_key_of(text@) is None,
        },
{
    if text.unicode_len() != 2 * KEY_BYTES {
        proof {
            if unhex_lower(text@) is Some {
                lemma_hex_len(unhex_lower(text@).unwrap());
            }
        }
        return None;
    }
    match read_hex_lower(text) {
        Some(bytes) => if bytes.len() == KEY_BYTES {
            Some(bytes)
        } else {
            None
        },
        None => None,
    }
}

/// Reads a stored initialization vector from its text.
pub fn read_iv(text: &str) -> (iv: Option<Vec<u8>>)
    ensures
        match iv {
            Some(bytes) => stored_iv_of(text@) == Some(bytes@),
            None => stored_iv_of(text@) is None,
        },
{
    if text.unicode_len() != 2 * IV_BYTES {
        proof {
            if unhex_upper(text@) is Some {
                lemma_hex_len(unhex_upper(text@).unwrap());
            }
        }
        return None;
    }
    match read_hex_upper(text) {
        Some(bytes) => if bytes.len() == IV_BYTES {
            Some(bytes)
        } else {
            None
        },
        None => None,
    }
}

/// What sealing `api_key` under `key` and `iv` stores: the ciphertext and
/// the vector, in upper-case hexadecimal.
pub open spec fn is_sealing_of(sealed: Sealed, api_key: Seq<char>, iv: Seq<u8>, key: Seq<u8>) -> bool {
    &&& sealed.secret_key@ == hex_upper(aes_256_cbc_encrypted(key, iv, vstd::utf8::encode_utf8(api_key)))
    &&& sealed.cipher_iv@ == hex_upper(iv)
}

/// Whether a text has more bytes than can be sealed.
pub open spec fn too_long_to_seal(api_key: Seq<char>) -> bool {
    vstd::utf8::encode_utf8(api_key).len() > max_plain_bytes()
}

/// Seals an API key for the store: encrypts it under the cipher key and
/// the initialization vector and writes ciphertext and vector in
/// upper-case hexadecimal.
///
/// The checks come in this order, and the first that fails names the
/// error: `CipherKey` for a key text that does not spell 32 bytes, `Iv`
/// for a vector that is not 16 bytes, `TooLong` for an API key of more
/// bytes than can be sealed. Then the cipher decides: what it gives is
/// stored, and its error is `Cipher`.
pub fn seal_api_key(api_key: &str, iv: &[u8], api_cipher_key: &str) -> (sealed: Result<Sealed, SecretError>)
    ensures
        match cipher_key_of(api_cipher_key@) {
            None => sealed == Err::<Sealed, SecretError>(SecretError::CipherKey),
            Some(key) => if iv@.len() != IV_BYTES {
                sealed == Err::<Sealed, SecretError>(SecretError::Iv)
            } else if too_long_to_seal(api_key@) {
                sealed == Err::<Sealed, SecretError>(SecretError::TooLong)
            } else {
                match sealed {
                    Ok(stored) => is_sealing_of(stored, api_key@, iv@, key),
                    Err(why) => why == SecretError::Cipher,
                }
            },
        },
{
    let key = match read_cipher_key(api_cipher_key) {
        Some(key) => key,
        None => {
            return Err(SecretError::CipherKey);
        },
    };
    if iv.len() != IV_BYTES {
        return Err(SecretError::Iv);
    }
    let plain = api_key.as_bytes();
    if !plain_fits(plain.len()) {
        return Err(SecretError::TooLong);
    }
    match aes_256_cbc_encrypt(key.as_slice(), iv, plain) {
        Some(ciphertext) => Ok(
            Sealed { secret_key: hex_upper_encode(ciphertext.as_slice()), cipher_iv: hex_upper_encode(iv) },
        ),
        None => Err(SecretError::Cipher),
    }
}

/// Whether a text is made of ASCII letters and digits, `chars` of them.
pub open spec fn is_fresh_api_key(api_key: Seq<char>, chars: int) -> bool {
    api_key.len() == chars && forall|i: int| 0 <= i < api_key.len() ==> is_alphanumeric(#[trigger] api_key[i])
}

/// Makes the secrets of a new account: a random API key of 64 letters and
/// digits, sealed under a random initialization vector of 16 bytes. The
/// key itself is not handed out; the store gets the sealed form.
///
/// Which key and which vector are drawn is left to chance. A key text
/// that does not spell 32 bytes gives `CipherKey` unless the randomness
/// failed first, which gives `Random`.
pub fn create_account(api_cipher_key: &str) -> (sealed: Result<Sealed, SecretError>)
    ensures
        match sealed {
            Ok(stored) => cipher_key_of(api_cipher_key@) is Some && exists|api_key: Seq<char>, iv: Seq<u8>|
                #![trigger is_sealing_of(stored, api_key, iv, cipher_key_of(api_cipher_key@).unwrap())]
                is_fresh_api_key(api_key, API_KEY_CHARS as int) && iv.len() == IV_BYTES && is_sealing_of(
                    stored,
                    api_key,
                    iv,
                    cipher_key_of(api_cipher_key@).unwrap(),
                ),
            Err(SecretError::CipherKey) => cipher_key_of(api_cipher_key@) is None,
            Err(SecretError::Cipher) => cipher_key_of(api_cipher_key@) is Some,
            Err(SecretError::Random) => true,
            Err(_) => false,
        },
{
    let api_key = random_api_key(API_KEY_CHARS);
    let iv = match random_iv(IV_BYTES) {
        Some(iv) => iv,
        None => {
            return Err(SecretError::Random);
        },
    };
    proof {
        // letters and digits take one byte each
        assert(vstd::utf8::is_ascii_chars(api_key@)) by {
            assert forall|i: int| 0 <= i < api_key@.len() implies '\0' <= #[trigger] api_key@[i]
                <= '\u{7f}' by {
                assert(is_alphanumeric(api_key@[i]));
            }
        }
        vstd::utf8::is_ascii_chars_encode_utf8(api_key@);
    }
    let sealed = seal_api_key(api_key.as_str(), iv.as_slice(), api_cipher_key);
    proof {
        if sealed is Ok {
            assert(is_fresh_api_key(api_key@, API_KEY_CHARS as int));
            assert(is_sealing_of(sealed.unwrap(), api_key@, iv@, cipher_key_of(api_cipher_key@).unwrap()));
        }
    }
    sealed
}

/// What opening a stored secret gives, where the cipher gives anything:
/// the text that the decrypted bytes spell in UTF-8, if they spell any.
pub open spec fn opened_text(ciphertext: Seq<u8>, iv: Seq<u8>, key: Seq<u8>) -> Option<Seq<char>> {
    let plain = aes_256_cbc_decrypted(key, iv, ciphertext);
    if vstd::utf8::valid_utf8(plain) {
        Some(vstd::utf8::decode_utf8(plain))
    } else {
        None
    }
}

/// Reads decrypted bytes as the API key they spell.
pub fn read_api_key(plain: Vec<u8>) -> (opened: Result<ApiKeyResult, SecretError>)
    ensures
        match opened {
            Ok(found) => vstd::utf8::valid_utf8(plain@) && found.api_key@ == vstd::utf8::decode_utf8(plain@),
            Err(why) => why == SecretError::Text && !vstd::utf8::valid_utf8(plain@),
        },
{
    match string_from_utf8(plain) {
        Some(api_key) => Ok(ApiKeyResult { api_key }),
        None => Err(SecretError::Text),
    }
}

/// Whether a stored ciphertext is too long to be opened: its text has
/// more characters than the hexadecimal reader takes, or spells more
/// bytes than the cipher takes.
pub open spec fn too_long_to_open(secret_key: Seq<char>) -> bool {
    secret_key.len() > max_decoded_chars() || secret_key.len() / 2 > max_cipher_bytes()
}

/// Opens the API key of an account: decodes the stored ciphertext and
/// vector, decrypts under the cipher key and reads the result as text.
///
/// The checks come in this order, and the first that fails names the
/// error: `TooLong` for a stored ciphertext that is too long to be
/// opened, `SecretKey` for one that is not upper-case hexadecimal, `Iv`
/// for a stored vector that does not spell 16 bytes, `CipherKey` for a
/// key text that does not spell 32 bytes. Then the cipher decides: its
/// error is `Cipher`, and what it gives is the key if it is text and
/// `Text` if it is not.
pub fn get_api_key(account: &models::Account, api_cipher_key: &str) -> (opened: Result<
    ApiKeyResult,
    SecretError,
>)
    ensures
        if too_long_to_open(account.secret_key@) {
            opened == Err::<ApiKeyResult, SecretError>(SecretError::TooLong)
        } else {
            match (unhex_upper(account.secret_key@), stored_iv_of(account.cipher_iv@), cipher_key_of(
                api_cipher_key@,
            )) {
                (None, _, _) => opened == Err::<ApiKeyResult, SecretError>(SecretError::SecretKey),
                (Some(_), None, _) => opened == Err::<ApiKeyResult, SecretError>(SecretError::Iv),
                (Some(_), Some(_), None) => opened == Err::<ApiKeyResult, SecretError>(
                    SecretError::CipherKey,
                ),
                (Some(ciphertext), Some(iv), Some(key)) => match opened {
                    Ok(found) => opened_text(ciphertext, iv, key) == Some(found.api_key@),
                    Err(SecretError::Text) => opened_text(ciphertext, iv, key) is None,
                    Err(why) => why == SecretError::Cipher,
                },
            }
        },
{
    let chars = account.secret_key.as_str().unicode_len();
    if !hex_fits(chars) || !cipher_fits(chars / 2) {
        return Err(SecretError::TooLong);
    }
    let ciphertext = match read_hex_upper(account.secret_key.as_str()) {
        Some(bytes) => bytes,
        None => {
            return Err(SecretError::SecretKey);
        },
    };
    proof {
        lemma_hex_len(ciphertext@);
    }
    let iv = match read_iv(account.cipher_iv.as_str()) {
        Some(bytes) => bytes,
        None => {
            return Err(SecretError::Iv);
        },
    };
    let key = match read_cipher_key(api_cipher_key) {
        Some(bytes) => bytes,
        None => {
            return Err(SecretError::CipherKey);
        },
    };
    match aes_256_cbc_decrypt(key.as_slice(), iv.as_slice(), ciphertext.as_slice()) {
        Some(plain) => read_api_key(plain),
        None => Err(SecretError::Cipher),
    }
}

/// Whether an account's row can be shown: it is dated at or after the
/// epoch.
pub open spec fn account_showable(row: models::Account) -> bool {
    datable(row.created_at)
}

/// What an account's row is shown as.
pub open spec fn account_of_row(row: models::Account) -> AccountData {
    AccountData {
        id: row.id,
        max_requests_per_minute: row.max_requests_per_minute,
        max_connections: row.max_connections,
        created_at: seconds_of(row.created_at),
    }
}

/// Shows an account's row; `None` for a row that is dated before the
/// epoch.
pub fn get_account(row: models::Account) -> (shown: Option<AccountData>)
    ensures
        match shown {
            Some(data) => account_showable(row) && data == account_of_row(row),
            None => !account_showable(row),
        },
{
    if checked_instant_to_seconds(row.created_at).is_none() {
        return None;
    }
    Some(
        AccountData {
            id: row.id,
            max_requests_per_minute: row.max_requests_per_minute,
            max_connections: row.max_connections,
            created_at: instant_to_seconds(row.created_at),
        },
    )
}

/// The connection cap that a row's number stands for: a negative number
/// allows no connection.
pub fn connection_cap(max_connections: i32) -> (cap: usize)
    ensures
        cap == if max_connections < 0 {
            0
        } else {
            max_connections as int
        },
{
    if max_connections < 0 {
        0
    } else {
        max_connections as usize
    }
}

/// The rate ceiling that a row's number stands for: a negative number
/// allows no request.
pub fn rate_ceiling(max_requests_per_minute: i32) -> (ceiling: u64)
    ensures
        ceiling == if max_requests_per_minute < 0 {
            0
        } else {
            max_requests_per_minute as int
        },
{
    if max_requests_per_minute < 0 {
        0
    } else {
        max_requests_per_minute as u64
    }
}

} // verus!
