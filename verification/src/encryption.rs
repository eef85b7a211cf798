//! The vault for refresh tokens: AES-256-GCM under a configured key, with
//! the nonce stored in front of the ciphertext and the whole in base64.

use aes_gcm::aead::{Aead, AeadCore, KeyInit, OsRng};
use aes_gcm::{Aes256Gcm, Nonce};
use base64::engine::general_purpose::STANDARD;
use base64::Engine;
use vstd::prelude::*;
use vstd::utf8::*;

use crate::error::{text_result, Error, ErrorView};

verus! {

/// Length of a key, in bytes.
pub const KEY_LEN: usize = 32;

/// Length of a nonce, in bytes.
pub const NONCE_LEN: usize = 12;

/// Length of the authentication tag at the end of a ciphertext, in bytes.
pub const TAG_LEN: usize = 16;

/// The standard base64 text, with padding, of `bytes`.
pub uninterp spec fn base64_text(bytes: Seq<u8>) -> Seq<char>;

/// The bytes that the standard base64 text `text` stands for, if it is one.
pub uninterp spec fn base64_bytes(text: Seq<char>) -> Option<Seq<u8>>;

/// The AES-256-GCM ciphertext of `plaintext`, tag at the end, under `key`
/// and `nonce`, without associated data.
pub uninterp spec fn aes256_gcm_sealed(key: Seq<u8>, nonce: Seq<u8>, plaintext: Seq<u8>) -> Option<
    Seq<u8>,
>;

/// The plaintext of the AES-256-GCM ciphertext `sealed` under `key` and
/// `nonce`, where its tag is the right one.
pub uninterp spec fn aes256_gcm_opened(key: Seq<u8>, nonce: Seq<u8>, sealed: Seq<u8>) -> Option<
    Seq<u8>,
>;

/// The base64 text of `len` bytes has a length that fits in `usize`.
pub open spec fn fits_base64(len: nat) -> bool {
    len / 3 <= (usize::MAX - 4) / 4
}

/// The length of the standard base64 text, with padding, of `len` bytes:
/// four characters for every three bytes, the last group filled up.
pub open spec fn base64_length(len: nat) -> nat {
    (len / 3) * 4 + if len % 3 == 0 {
        0nat
    } else {
        4nat
    }
}

/// `base64::Engine::encode` of the engine `STANDARD`. The contract names the
/// text, gives its length, and claims that decoding it with the same engine
/// gives the bytes back. The call panics where the length of the text
/// overflows `usize`, which `requires` leaves out.
#[verifier::external_body]
fn base64_encode(bytes: &[u8]) -> (text: String)
    requires
        fits_base64(bytes@.len()),
    ensures
        text@ == base64_text(bytes@),
        text@.len() == base64_length(bytes@.len()),
        base64_bytes(text@) == Some(bytes@),
{
    STANDARD.encode(bytes)
}

/// `base64::Engine::decode` of the engine `STANDARD`; `None` stands for its
/// error. The contract names the bytes.
#[verifier::external_body]
fn base64_decode(text: &str) -> (bytes: Option<Vec<u8>>)
    ensures
        match bytes {
            Some(b) => base64_bytes(text@) == Some(b@),
            None => base64_bytes(text@) is None,
        },
{
    STANDARD.decode(text).ok()
}

/// `Aes256Gcm::generate_nonce` on the operating system's random numbers.
/// The contract claims the length of the nonce and nothing else. The call
/// panics where the operating system gives no random numbers.
#[verifier::external_body]
fn fresh_nonce() -> (nonce: Vec<u8>)
    ensures
        nonce@.len() == NONCE_LEN,
{
    Aes256Gcm::generate_nonce(&mut OsRng).to_vec()
}

/// `Aead::encrypt` of `Aes256Gcm`; `None` stands for its error. The contract
/// names the ciphertext, gives its length (the plaintext's and the tag's),
/// and claims that `Aead::decrypt` under the same key and nonce gives the
/// plaintext back. `Nonce::from_slice` panics on a nonce of another length,
/// which `requires` leaves out.
#[verifier::external_body]
fn seal(key: &[u8], nonce: &[u8], plaintext: &[u8]) -> (sealed: Option<Vec<u8>>)
    requires
        key@.len() == KEY_LEN,
        nonce@.len() == NONCE_LEN,
    ensures
        match sealed {
            Some(c) => {
                &&& aes256_gcm_sealed(key@, nonce@, plaintext@) == Some(c@)
                &&& c@.len() == plaintext@.len() + TAG_LEN
                &&& aes256_gcm_opened(key@, nonce@, c@) == Some(plaintext@)
            },
            None => aes256_gcm_sealed(key@, nonce@, plaintext@) is None,
        },
{
    let cipher = Aes256Gcm::new_from_slice(key).ok()?;
    cipher.encrypt(Nonce::from_slice(nonce), plaintext).ok()
}

/// `Aead::decrypt` of `Aes256Gcm`; `None` stands for its error, which is
/// what a wrong tag gives. The contract names the plaintext.
#[verifier::external_body]
fn open(key: &[u8], nonce: &[u8], sealed: &[u8]) -> (plaintext: Option<Vec<u8>>)
    requires
        key@.len() == KEY_LEN,
        nonce@.len() == NONCE_LEN,
    ensures
        match plaintext {
            Some(p) => aes256_gcm_opened(key@, nonce@, sealed@) == Some(p@),
            None => aes256_gcm_opened(key@, nonce@, sealed@) is None,
        },
{
    let cipher = Aes256Gcm::new_from_slice(key).ok()?;
    cipher.decrypt(Nonce::from_slice(nonce), sealed).ok()
}

/// `String::from_utf8`; `None` stands for its error. The bytes become a
/// string exactly when they are valid UTF-8, and the string is what they
/// decode to.
#[verifier::external_body]
fn utf8_to_string(bytes: Vec<u8>) -> (text: Option<String>)
    ensures
        match text {
            Some(s) => valid_utf8(bytes@) && s@ == decode_utf8(bytes@),
            None => !valid_utf8(bytes@),
        },
{
    String::from_utf8(bytes).ok()
}

/// The key that the configured text stands for: base64 of exactly 32 bytes.
pub open spec fn key_of(key: Seq<char>) -> Option<Seq<u8>> {
    match base64_bytes(key) {
        Some(k) => if k.len() == KEY_LEN {
            Some(k)
        } else {
            None
        },
        None => None,
    }
}

/// What encrypting `plaintext` under `key` with `nonce` gives: the base64
/// text of the nonce followed by the ciphertext.
pub open spec fn encrypted(plaintext: Seq<char>, key: Seq<char>, nonce: Seq<u8>) -> Result<
    Seq<char>,
    ErrorView,
> {
    match key_of(key) {
        None => Err(ErrorView::Encryption("invalid encryption key"@)),
        Some(k) => if nonce.len() != NONCE_LEN {
            Err(ErrorView::Encryption("invalid nonce"@))
        } else {
            match aes256_gcm_sealed(k, nonce, encode_utf8(plaintext)) {
                None => Err(ErrorView::Encryption("encryption failed"@)),
                Some(c) => if fits_base64((nonce + c).len()) {
                    Ok(base64_text(nonce + c))
                } else {
                    Err(ErrorView::Encryption("encryption failed"@))
                },
            }
        },
    }
}

/// What decrypting `ciphertext` under `key` gives. Anything but the base64
/// text of a nonce and of a ciphertext that opens under the key to valid
/// UTF-8 is an error.
pub open spec fn decrypted(ciphertext: Seq<char>, key: Seq<char>) -> Result<Seq<char>, ErrorView> {
    match key_of(key) {
        None => Err(ErrorView::Encryption("invalid encryption key"@)),
        Some(k) => match base64_bytes(ciphertext) {
            None => Err(ErrorView::Encryption("invalid ciphertext"@)),
            Some(framed) => if framed.len() < NONCE_LEN {
                Err(ErrorView::Encryption("invalid ciphertext"@))
            } else {
                match aes256_gcm_opened(
                    k,
                    framed.subrange(0, NONCE_LEN as int),
                    framed.subrange(NONCE_LEN as int, framed.len() as int),
                ) {
                    None => Err(ErrorView::Encryption("decryption failed"@)),
                    Some(p) => if valid_utf8(p) {
                        Ok(decode_utf8(p))
                    } else {
                        Err(ErrorView::Encryption("decrypted data is not valid UTF-8"@))
                    },
                }
            },
        },
    }
}

proof fn lemma_encoding_is_no_shorter(chars: Seq<char>)
    ensures
        encode_utf8(chars).len() >= chars.len(),
    decreases chars.len(),
{
    if chars.len() > 0 {
        lemma_encoding_is_no_shorter(chars.drop_first());
    }
}

fn failure(reason: &str) -> (e: Error)
    ensures
        e@ == ErrorView::Encryption(reason@),
{
    Error::Encryption(String::from_str(reason))
}

fn decode_key(key: &str) -> (k: Option<Vec<u8>>)
    ensures
        match k {
            Some(bytes) => key_of(key@) == Some(bytes@),
            None => key_of(key@) is None,
        },
{
    match base64_decode(key) {
        Some(bytes) => if bytes.len() == KEY_LEN {
            Some(bytes)
        } else {
            None
        },
        None => None,
    }
}

/// Encrypts `plaintext` under `key` with the given nonce. What comes out
/// decrypts under the same key to `plaintext`, and is longer than
/// `plaintext`, so never `plaintext` itself.
pub fn encrypt_with_nonce(plaintext: &str, key: &str, nonce: &[u8]) -> (r: Result<String, Error>)
    ensures
        text_result(r) == encrypted(plaintext@, key@, nonce@),
        r matches Ok(c) ==> decrypted(c@, key@) == Ok::<Seq<char>, ErrorView>(plaintext@),
        r matches Ok(c) ==> c@.len() > plaintext@.len() && c@ != plaintext@,
{
    let k = match decode_key(key) {
        Some(k) => k,
        None => {
            return Err(failure("invalid encryption key"));
        },
    };
    if nonce.len() != NONCE_LEN {
        return Err(failure("invalid nonce"));
    }
    let sealed = match seal(k.as_slice(), nonce, plaintext.as_bytes()) {
        Some(c) => c,
        None => {
            return Err(failure("encryption failed"));
        },
    };
    let mut framed: Vec<u8> = Vec::new();
    framed.extend_from_slice(nonce);
    framed.extend_from_slice(sealed.as_slice());
    assert(framed@ =~= nonce@ + sealed@);
    if framed.len() / 3 > (usize::MAX - 4) / 4 {
        return Err(failure("encryption failed"));
    }
    proof {
        assert(framed@.subrange(0, NONCE_LEN as int) =~= nonce@);
        assert(framed@.subrange(NONCE_LEN as int, framed@.len() as int) =~= sealed@);
        encode_utf8_valid_utf8(plaintext@);
        encode_utf8_decode_utf8(plaintext@);
        lemma_encoding_is_no_shorter(plaintext@);
    }
    Ok(base64_encode(framed.as_slice()))
}

/// Encrypts `plaintext` under `key` with a fresh random nonce. What comes
/// out decrypts under the same key to `plaintext`, and is never `plaintext`
/// itself.
pub fn encrypt(plaintext: &str, key: &str) -> (r: Result<String, Error>)
    ensures
        exists|nonce: Seq<u8>|
            nonce.len() == NONCE_LEN && text_result(r) == #[trigger] encrypted(
                plaintext@,
                key@,
                nonce,
            ),
        r matches Ok(c) ==> decrypted(c@, key@) == Ok::<Seq<char>, ErrorView>(plaintext@),
        r matches Ok(c) ==> c@.len() > plaintext@.len() && c@ != plaintext@,
{
    let nonce = fresh_nonce();
    encrypt_with_nonce(plaintext, key, nonce.as_slice())
}

/// Decrypts what `encrypt` gave. A wrong key, a changed ciphertext and
/// anything else that does not open fail; nothing is ever handed back
/// undecrypted.
pub fn decrypt(ciphertext: &str, key: &str) -> (r: Result<String, Error>)
    ensures
        text_result(r) == decrypted(ciphertext@, key@),
{
    let k = match decode_key(key) {
        Some(k) => k,
        None => {
            return Err(failure("invalid encryption key"));
        },
    };
    let framed = match base64_decode(ciphertext) {
        Some(f) => f,
        None => {
            return Err(failure("invalid ciphertext"));
        },
    };
    if framed.len() < NONCE_LEN {
        return Err(failure("invalid ciphertext"));
    }
    let (nonce, sealed) = framed.as_slice().split_at(NONCE_LEN);
    let plaintext = match open(k.as_slice(), nonce, sealed) {
        Some(p) => p,
        None => {
            return Err(failure("decryption failed"));
        },
    };
    match utf8_to_string(plaintext) {
        Some(s) => Ok(s),
        None => Err(failure("decrypted data is not valid UTF-8")),
    }
}

} // verus!
