//! The primitives behind stored secrets and signed requests: hexadecimal
//! text, AES-256 in CBC mode, HMAC with SHA-256, and randomness. The
//! computations are OpenSSL's, `data-encoding`'s, `rand`'s and `ring`'s;
//! this module says what the rest of the library relies on.
use vstd::prelude::*;

verus! {

/// Bytes in an AES-256 key.
pub const KEY_BYTES: usize = 32;

/// Bytes in the initialization vector of AES in CBC mode.
pub const IV_BYTES: usize = 16;

/// Bytes in one block of AES.
pub const BLOCK_BYTES: usize = 16;

/// Characters in a fresh API key.
pub const API_KEY_CHARS: usize = 64;

/// The sixteen digits of upper-case hexadecimal, by value.
pub open spec fn upper_digits() -> Seq<char> {
    seq!['0', '1', '2', '3', '4', '5', '6', '7', '8', '9', 'A', 'B', 'C', 'D', 'E', 'F']
}

/// The sixteen digits of lower-case hexadecimal, by value.
pub open spec fn lower_digits() -> Seq<char> {
    seq!['0', '1', '2', '3', '4', '5', '6', '7', '8', '9', 'a', 'b', 'c', 'd', 'e', 'f']
}

/// Bytes written with the given digits: two for each byte, the high half
/// first.
pub open spec fn hex_with(digits: Seq<char>, bytes: Seq<u8>) -> Seq<char> {
    Seq::new(
        2 * bytes.len(),
        |i: int|
            if i % 2 == 0 {
                digits[bytes[i / 2] as int / 16]
            } else {
                digits[bytes[i / 2] as int % 16]
            },
    )
}

/// Bytes in upper-case hexadecimal.
pub open spec fn hex_upper(bytes: Seq<u8>) -> Seq<char> {
    hex_with(upper_digits(), bytes)
}

/// Bytes in lower-case hexadecimal.
pub open spec fn hex_lower(bytes: Seq<u8>) -> Seq<char> {
    hex_with(lower_digits(), bytes)
}

/// The sixteen digits of either case are sixteen different characters.
proof fn lemma_digits_differ()
    ensures
        upper_digits().no_duplicates(),
        lower_digits().no_duplicates(),
        upper_digits().len() == 16,
        lower_digits().len() == 16,
{
}

/// Written with sixteen different digits, different bytes never read the
/// same: the text of some bytes is the text of those bytes only.
proof fn lemma_hex_with_is_injective(digits: Seq<char>, a: Seq<u8>, b: Seq<u8>)
    requires
        digits.len() == 16,
        digits.no_duplicates(),
        hex_with(digits, a) == hex_with(digits, b),
    ensures
        a == b,
{
    assert(hex_with(digits, a).len() == 2 * a.len());
    assert(hex_with(digits, b).len() == 2 * b.len());
    assert forall|i: int| 0 <= i < a.len() implies a[i] == b[i] by {
        let high = 2 * i;
        let low = 2 * i + 1;
        assert(hex_with(digits, a)[high] == digits[a[i] as int / 16]);
        assert(hex_with(digits, b)[high] == digits[b[i] as int / 16]);
        assert(hex_with(digits, a)[low] == digits[a[i] as int % 16]);
        assert(hex_with(digits, b)[low] == digits[b[i] as int % 16]);
        assert(a[i] as int / 16 == b[i] as int / 16);
        assert(a[i] as int % 16 == b[i] as int % 16);
    }
    assert(a =~= b);
}

/// A text in upper-case hexadecimal spells one byte string and no other.
pub proof fn lemma_hex_upper_is_injective(a: Seq<u8>, b: Seq<u8>)
    requires
        hex_upper(a) == hex_upper(b),
    ensures
        a == b,
{
    lemma_digits_differ();
    lemma_hex_with_is_injective(upper_digits(), a, b);
}

/// A text in lower-case hexadecimal spells one byte string and no other.
pub proof fn lemma_hex_lower_is_injective(a: Seq<u8>, b: Seq<u8>)
    requires
        hex_lower(a) == hex_lower(b),
    ensures
        a == b,
{
    lemma_digits_differ();
    lemma_hex_with_is_injective(lower_digits(), a, b);
}

/// The bytes that a text spells in upper-case hexadecimal, if it spells
/// any.
pub open spec fn unhex_upper(text: Seq<char>) -> Option<Seq<u8>> {
    if exists|bytes: Seq<u8>| #[trigger] hex_upper(bytes) == text {
        Some(choose|bytes: Seq<u8>| #[trigger] hex_upper(bytes) == text)
    } else {
        None
    }
}

/// The bytes that a text spells in lower-case hexadecimal, if it spells
/// any.
pub open spec fn unhex_lower(text: Seq<char>) -> Option<Seq<u8>> {
    if exists|bytes: Seq<u8>| #[trigger] hex_lower(bytes) == text {
        Some(choose|bytes: Seq<u8>| #[trigger] hex_lower(bytes) == text)
    } else {
        None
    }
}

/// Reading undoes writing, in upper case.
pub proof fn lemma_unhex_upper(bytes: Seq<u8>)
    ensures
        unhex_upper(hex_upper(bytes)) == Some(bytes),
{
    let text = hex_upper(bytes);
    assert(hex_upper(bytes) == text);
    let read = choose|any: Seq<u8>| #[trigger] hex_upper(any) == text;
    lemma_hex_upper_is_injective(read, bytes);
}

/// Reading undoes writing, in lower case.
pub proof fn lemma_unhex_lower(bytes: Seq<u8>)
    ensures
        unhex_lower(hex_lower(bytes)) == Some(bytes),
{
    let text = hex_lower(bytes);
    assert(hex_lower(bytes) == text);
    let read = choose|any: Seq<u8>| #[trigger] hex_lower(any) == text;
    lemma_hex_lower_is_injective(read, bytes);
}

/// Whether a character is an ASCII letter or digit.
pub open spec fn is_alphanumeric(c: char) -> bool {
    ('0' <= c && c <= '9') || ('a' <= c && c <= 'z') || ('A' <= c && c <= 'Z')
}

/// What `openssl::symm::encrypt` gives with `Cipher::aes_256_cbc()` for a
/// key, an initialization vector and a plaintext, when it gives anything:
/// the ciphertext, padding included.
pub uninterp spec fn aes_256_cbc_encrypted(key: Seq<u8>, iv: Seq<u8>, data: Seq<u8>) -> Seq<u8>;

/// What `openssl::symm::decrypt` gives with `Cipher::aes_256_cbc()` for a
/// key, an initialization vector and a ciphertext, when it gives anything:
/// the plaintext, padding removed.
pub uninterp spec fn aes_256_cbc_decrypted(key: Seq<u8>, iv: Seq<u8>, data: Seq<u8>) -> Seq<u8>;

/// What OpenSSL's HMAC with SHA-256 gives for a key and a message, when it
/// gives anything: the authentication code.
pub uninterp spec fn hmac_sha256(key: Seq<u8>, message: Seq<u8>) -> Seq<u8>;

/// The most bytes that `data_encoding` writes in one call: beyond
/// `usize::MAX / 512` its `encode_len` may panic.
pub open spec fn max_encoded_bytes() -> int {
    (usize::MAX / 512) as int
}

/// The most characters of a text that `data_encoding` reads in one call.
/// Its `decode_len` may panic beyond `usize::MAX / 8` bytes, and a
/// character takes four bytes at most.
pub open spec fn max_decoded_chars() -> int {
    (usize::MAX / 32) as int
}

/// The most bytes that OpenSSL's cipher takes in one call: it counts them
/// in a C `int`, and it writes into a buffer one block longer, which must
/// not be longer than a buffer can be.
pub open spec fn max_cipher_bytes() -> int {
    if isize::MAX - BLOCK_BYTES < i32::MAX {
        isize::MAX - BLOCK_BYTES
    } else {
        i32::MAX as int
    }
}

/// The most bytes of a plaintext that can be sealed: the cipher must take
/// it, and the ciphertext, one block longer at most, must be writable in
/// hexadecimal.
pub open spec fn max_plain_bytes() -> int {
    if max_encoded_bytes() - BLOCK_BYTES < max_cipher_bytes() {
        max_encoded_bytes() - BLOCK_BYTES
    } else {
        max_cipher_bytes()
    }
}

/// The most bytes of a plaintext whose ciphertext can be held against a
/// stored one: the cipher must take it, and the stored text, two
/// characters for each byte of a ciphertext one block longer at most,
/// must be readable.
pub open spec fn max_checked_bytes() -> int {
    if max_decoded_chars() / 2 - BLOCK_BYTES < max_cipher_bytes() {
        max_decoded_chars() / 2 - BLOCK_BYTES
    } else {
        max_cipher_bytes()
    }
}

/// Whether a plaintext of `len` bytes can be held against a stored
/// ciphertext.
pub fn check_fits(len: usize) -> (fits: bool)
    ensures
        fits == (len <= max_checked_bytes()),
{
    cipher_fits(len) && len <= usize::MAX / 32 / 2 - BLOCK_BYTES
}

/// Whether the cipher takes `len` bytes.
pub fn cipher_fits(len: usize) -> (fits: bool)
    ensures
        fits == (len <= max_cipher_bytes()),
{
    len <= 0x7fff_ffff && len <= (isize::MAX as usize) - BLOCK_BYTES
}

/// Whether a plaintext of `len` bytes can be sealed.
pub fn plain_fits(len: usize) -> (fits: bool)
    ensures
        fits == (len <= max_plain_bytes()),
{
    cipher_fits(len) && len <= usize::MAX / 512 - BLOCK_BYTES
}

/// Whether a text of `chars` characters can be read as hexadecimal.
pub fn hex_fits(chars: usize) -> (fits: bool)
    ensures
        fits == (chars <= max_decoded_chars()),
{
    chars <= usize::MAX / 32
}

/// Calls `data_encoding::HEXUPPER.encode`: two upper-case digits for each
/// byte, the high half first. The call may panic on more than
/// `usize::MAX / 512` bytes, which the precondition leaves out.
#[verifier::external_body]
pub(crate) fn hex_upper_encode(bytes: &[u8]) -> (text: String)
    requires
        bytes@.len() <= max_encoded_bytes(),
    ensures
        text@ == hex_upper(bytes@),
{
    data_encoding::HEXUPPER.encode(bytes)
}

/// Calls `data_encoding::HEXUPPER.decode` on the bytes of a text. The
/// encoding is strict: it takes the sixteen upper-case digits and nothing
/// else, so it gives bytes exactly for a text that is some bytes written
/// in upper-case hexadecimal, and those are the bytes. The call may panic
/// on more than `usize::MAX / 8` bytes; a text of at most
/// `usize::MAX / 32` characters has no more bytes than that.
#[verifier::external_body]
fn hex_upper_decode(text: &str) -> (bytes: Option<Vec<u8>>)
    requires
        text@.len() <= max_decoded_chars(),
    ensures
        match bytes {
            Some(decoded) => hex_upper(decoded@) == text@,
            None => forall|any: Seq<u8>| #[trigger] hex_upper(any) != text@,
        },
{
    data_encoding::HEXUPPER.decode(text.as_bytes()).ok()
}

/// Calls `data_encoding::HEXLOWER.decode` on the bytes of a text; strict
/// in the same way, with the lower-case digits, and with the same bound
/// on the length.
#[verifier::external_body]
fn hex_lower_decode(text: &str) -> (bytes: Option<Vec<u8>>)
    requires
        text@.len() <= max_decoded_chars(),
    ensures
        match bytes {
            Some(decoded) => hex_lower(decoded@) == text@,
            None => forall|any: Seq<u8>| #[trigger] hex_lower(any) != text@,
        },
{
    data_encoding::HEXLOWER.decode(text.as_bytes()).ok()
}

/// Calls `openssl::symm::encrypt` with `Cipher::aes_256_cbc()`. The call
/// panics on a key or a vector that is too short, on data longer than a
/// C `int` can count, and where a buffer one block longer than the data
/// cannot be made, all of which the precondition leaves out. `None`
/// stands for an error from OpenSSL. The ciphertext comes out of that
/// buffer, so it is at most one block longer than the data.
#[verifier::external_body]
pub(crate) fn aes_256_cbc_encrypt(key: &[u8], iv: &[u8], data: &[u8]) -> (sealed: Option<Vec<u8>>)
    requires
        key@.len() == KEY_BYTES,
        iv@.len() == IV_BYTES,
        data@.len() <= max_cipher_bytes(),
    ensures
        sealed matches Some(bytes) ==> bytes@ == aes_256_cbc_encrypted(key@, iv@, data@),
        sealed matches Some(bytes) ==> bytes@.len() <= data@.len() + BLOCK_BYTES,
{
    openssl::symm::encrypt(openssl::symm::Cipher::aes_256_cbc(), key, Some(iv), data).ok()
}

/// Calls `openssl::symm::decrypt` with `Cipher::aes_256_cbc()`. The call
/// panics on a key or a vector that is too short, on data longer than a
/// C `int` can count, and where a buffer one block longer than the data
/// cannot be made, all of which the precondition leaves out. `None`
/// stands for an error from OpenSSL, which a ciphertext that was not made
/// with this key brings about.
#[verifier::external_body]
pub(crate) fn aes_256_cbc_decrypt(key: &[u8], iv: &[u8], data: &[u8]) -> (opened: Option<Vec<u8>>)
    requires
        key@.len() == KEY_BYTES,
        iv@.len() == IV_BYTES,
        data@.len() <= max_cipher_bytes(),
    ensures
        opened matches Some(bytes) ==> bytes@ == aes_256_cbc_decrypted(key@, iv@, data@),
{
    openssl::symm::decrypt(openssl::symm::Cipher::aes_256_cbc(), key, Some(iv), data).ok()
}

/// Computes an HMAC with OpenSSL: `PKey::hmac`, `Signer::new` with
/// `MessageDigest::sha256()`, one `update` with the message, and
/// `sign_to_vec`. `PKey::hmac` panics on a key longer than a C `int` can
/// count, which the precondition leaves out. `None` stands for an error
/// from OpenSSL.
#[verifier::external_body]
pub(crate) fn hmac_sha256_sign(key: &[u8], message: &[u8]) -> (code: Option<Vec<u8>>)
    requires
        key@.len() <= i32::MAX,
    ensures
        code matches Some(bytes) ==> bytes@ == hmac_sha256(key@, message@),
{
    let key = openssl::pkey::PKey::hmac(key).ok()?;
    let mut signer = openssl::sign::Signer::new(openssl::hash::MessageDigest::sha256(), &key).ok()?;
    signer.update(message).ok()?;
    signer.sign_to_vec().ok()
}

/// Calls `openssl::memcmp::eq`, which compares two byte strings of one
/// length in time that does not depend on what they hold, and panics on
/// strings of different lengths.
#[verifier::external_body]
pub(crate) fn constant_time_eq(a: &[u8], b: &[u8]) -> (same: bool)
    requires
        a@.len() == b@.len(),
    ensures
        same == (a@ == b@),
{
    openssl::memcmp::eq(a, b)
}

/// Draws `chars` characters from `rand::distributions::Alphanumeric` with
/// `rand::thread_rng()`. Which characters come is left to chance; each is
/// an ASCII letter or digit. `thread_rng` panics if the system gives it no
/// seed when a thread first uses it; no input brings that about and none
/// prevents it.
#[verifier::external_body]
pub(crate) fn random_api_key(chars: usize) -> (key: String)
    requires
        chars <= isize::MAX,
    ensures
        key@.len() == chars,
        forall|i: int| 0 <= i < key@.len() ==> is_alphanumeric(#[trigger] key@[i]),
{
    rand::Rng::sample_iter(rand::thread_rng(), &rand::distributions::Alphanumeric).take(chars).collect()
}

/// Fills `bytes` bytes with `ring::rand::SystemRandom`. `None` stands for
/// ring's error; of the bytes nothing is known but their number.
#[verifier::external_body]
pub(crate) fn random_iv(bytes: usize) -> (iv: Option<Vec<u8>>)
    requires
        bytes <= isize::MAX,
    ensures
        iv matches Some(filled) ==> filled@.len() == bytes,
{
    let mut iv = vec![0u8; bytes];
    ring::rand::SecureRandom::fill(&ring::rand::SystemRandom::new(), &mut iv).ok()?;
    Some(iv)
}

/// Calls `String::from_utf8`, which gives the text that the bytes spell
/// in UTF-8, and an error (here `None`) for bytes that are not UTF-8.
#[verifier::external_body]
pub(crate) fn string_from_utf8(bytes: Vec<u8>) -> (text: Option<String>)
    ensures
        match text {
            Some(read) => vstd::utf8::valid_utf8(bytes@) && read@ == vstd::utf8::decode_utf8(bytes@),
            None => !vstd::utf8::valid_utf8(bytes@),
        },
{
    String::from_utf8(bytes).ok()
}

/// The bytes that a text spells in upper-case hexadecimal, if it spells
/// any and is short enough to be read.
pub(crate) fn read_hex_upper(text: &str) -> (bytes: Option<Vec<u8>>)
    requires
        text@.len() <= max_decoded_chars(),
    ensures
        match bytes {
            Some(read) => unhex_upper(text@) == Some(read@),
            None => unhex_upper(text@) is None,
        },
{
    let bytes = hex_upper_decode(text);
    proof {
        if bytes is Some {
            lemma_unhex_upper(bytes.unwrap()@);
        }
    }
    bytes
}

/// The bytes that a text spells in lower-case hexadecimal, if it spells
/// any and is short enough to be read.
pub(crate) fn read_hex_lower(text: &str) -> (bytes: Option<Vec<u8>>)
    requires
        text@.len() <= max_decoded_chars(),
    ensures
        match bytes {
            Some(read) => unhex_lower(text@) == Some(read@),
            None => unhex_lower(text@) is None,
        },
{
    let bytes = hex_lower_decode(text);
    proof {
        if bytes is Some {
            lemma_unhex_lower(bytes.unwrap()@);
        }
    }
    bytes
}

/// A text that spells bytes in hexadecimal has two characters for each.
pub proof fn lemma_hex_len(bytes: Seq<u8>)
    ensures
        hex_upper(bytes).len() == 2 * bytes.len(),
        hex_lower(bytes).len() == 2 * bytes.len(),
{
}

} // verus!
