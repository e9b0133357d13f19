//! Encryption of sensitive values: AES-256-GCM behind trusted
//! wrappers, with a verified hexadecimal codec around it.

use vstd::prelude::*;
use vstd::string::StrSliceExecFns;
use vstd::string::StringSliceAdditionalSpecFns;
use vstd::utf8::{encode_utf8, valid_utf8};
use crate::errors::AppError;
use crate::text::string_from_chars;
use aes_gcm::aead::Aead;
use aes_gcm::{Aes256Gcm, Key, KeyInit, Nonce};

verus! {

/// The lowercase hexadecimal digit for a value below sixteen.
pub open spec fn spec_hex_digit(d: nat) -> char {
    if d < 10 {
        ((48 + d) as u8) as char
    } else {
        ((87 + d) as u8) as char
    }
}

/// The lowercase hexadecimal rendering of a byte string: two digits per
/// byte, high nibble first.
pub open spec fn spec_hex_of(bytes: Seq<u8>) -> Seq<char>
    decreases bytes.len(),
{
    if bytes.len() == 0 {
        Seq::empty()
    } else {
        spec_hex_of(bytes.drop_last()).push(spec_hex_digit((bytes.last() / 16) as nat)).push(
            spec_hex_digit((bytes.last() % 16) as nat),
        )
    }
}

/// The value of one hexadecimal digit; other characters read as
/// sixteen, which marks them invalid.
pub open spec fn spec_hex_val(c: char) -> nat {
    if '0' <= c && c <= '9' {
        (c as nat - 48) as nat
    } else if 'a' <= c && c <= 'f' {
        (c as nat - 87) as nat
    } else if 'A' <= c && c <= 'F' {
        (c as nat - 55) as nat
    } else {
        16
    }
}

/// The bytes read off an even-length hexadecimal string.
pub open spec fn spec_hex_decode(s: Seq<char>) -> Seq<u8> {
    Seq::new((s.len() / 2) as nat, |i: int| (spec_hex_val(s[2 * i]) * 16 + spec_hex_val(s[2 * i + 1])) as u8)
}

/// Renders bytes in lowercase hexadecimal.
pub fn hex_encode(bytes: &Vec<u8>) -> (r: String)
    ensures
        r@ == spec_hex_of(bytes@),
        r@.len() == 2 * bytes@.len(),
{
    let n = bytes.len();
    let mut out: Vec<char> = Vec::new();
    let mut i: usize = 0;
    while i < n
        invariant
            n == bytes@.len(),
            i <= n,
            out@ =~= spec_hex_of(bytes@.take(i as int)),
            out@.len() == 2 * i,
        decreases n - i,
    {
        let b = bytes[i];
        let hi = b / 16;
        let lo = b % 16;
        let hc = if hi < 10 {
            (48 + hi) as char
        } else {
            (87 + hi) as char
        };
        let lc = if lo < 10 {
            (48 + lo) as char
        } else {
            (87 + lo) as char
        };
        proof {
            assert(bytes@.take(i as int + 1).drop_last() =~= bytes@.take(i as int));
            assert(bytes@.take(i as int + 1).last() == bytes@[i as int]);
            assert(hc == spec_hex_digit((bytes@[i as int] / 16) as nat));
            assert(lc == spec_hex_digit((bytes@[i as int] % 16) as nat));
        }
        out.push(hc);
        out.push(lc);
        i = i + 1;
    }
    proof {
        assert(bytes@.take(n as int) =~= bytes@);
        lemma_hex_len(bytes@);
    }
    string_from_chars(&out)
}

proof fn lemma_hex_len(bytes: Seq<u8>)
    ensures
        spec_hex_of(bytes).len() == 2 * bytes.len(),
    decreases bytes.len(),
{
    if bytes.len() > 0 {
        lemma_hex_len(bytes.drop_last());
    }
}

/// Reads an even-length hexadecimal string back into bytes; an odd
/// length or a non-digit yields nothing.
pub fn hex_decode(s: &str) -> (r: Option<Vec<u8>>)
    ensures
        match r {
            Some(v) => s@.len() % 2 == 0 && (forall|i: int|
                0 <= i < s@.len() ==> spec_hex_val(#[trigger] s@[i]) < 16) && v@
                == spec_hex_decode(s@),
            None => s@.len() % 2 != 0 || (exists|i: int|
                0 <= i < s@.len() && spec_hex_val(#[trigger] s@[i]) >= 16),
        },
{
    let n = s.unicode_len();
    if n % 2 != 0 {
        return None;
    }
    let mut out: Vec<u8> = Vec::new();
    let mut i: usize = 0;
    while i < n
        invariant
            n == s@.len(),
            n % 2 == 0,
            i <= n,
            i % 2 == 0,
            forall|j: int| 0 <= j < i ==> spec_hex_val(#[trigger] s@[j]) < 16,
            out@.len() == i / 2,
            forall|k: int|
                0 <= k < out@.len() ==> #[trigger] out@[k] == (spec_hex_val(s@[2 * k]) * 16
                    + spec_hex_val(s@[2 * k + 1])) as u8,
        decreases n - i,
    {
        let c1 = s.get_char(i);
        let c2 = s.get_char(i + 1);
        let v1 = hex_val(c1);
        let v2 = hex_val(c2);
        if v1 >= 16 || v2 >= 16 {
            return None;
        }
        out.push(v1 * 16 + v2);
        i = i + 2;
    }
    proof {
        assert(out@ =~= spec_hex_decode(s@));
    }
    Some(out)
}

/// The value of one hexadecimal digit at runtime.
fn hex_val(c: char) -> (r: u8)
    ensures
        r == spec_hex_val(c),
{
    if c >= '0' && c <= '9' {
        (c as u8) - 48
    } else if c >= 'a' && c <= 'f' {
        (c as u8) - 87
    } else if c >= 'A' && c <= 'F' {
        (c as u8) - 55
    } else {
        16
    }
}

/// What AES-256-GCM under this module's fixed nonce produces for a key
/// and plaintext: deterministic in both.
pub uninterp spec fn gcm_seal_of(key: Seq<u8>, plain: Seq<u8>) -> Seq<u8>;

/// What AES-256-GCM decryption yields for a key and ciphertext: the
/// plaintext for a ciphertext this key sealed, nothing for anything
/// tampered.
pub uninterp spec fn gcm_open_of(key: Seq<u8>, cipher: Seq<u8>) -> Option<Seq<u8>>;

/// Relies on `aes_gcm::Aes256Gcm::encrypt` under the module's fixed
/// nonce: the ciphertext is a function of key and plaintext, and
/// decrypting it with the same key gives the plaintext back. The
/// cipher reports an error on plaintexts beyond its documented
/// ceiling of 2^36 bytes, so such inputs are excluded here and the
/// caller refuses them first.
#[verifier::external_body]
fn gcm_seal(key: &Vec<u8>, plain: &[u8]) -> (r: Vec<u8>)
    requires
        key@.len() == 32,
        plain@.len() <= 0x10_0000_0000,
    ensures
        r@ == gcm_seal_of(key@, plain@),
        gcm_open_of(key@, r@) == Some(plain@),
{
    let k = Key::<Aes256Gcm>::from_slice(key.as_slice());
    let cipher = Aes256Gcm::new(k);
    let nonce = Nonce::from_slice(b"unique nonce");
    match cipher.encrypt(nonce, plain) {
        Ok(c) => c,
        Err(_) => Vec::new(),
    }
}

/// Relies on `aes_gcm::Aes256Gcm::decrypt` under the module's fixed
/// nonce: a function of key and ciphertext, absent when authentication
/// fails.
#[verifier::external_body]
fn gcm_open(key: &Vec<u8>, cipher_text: &Vec<u8>) -> (r: Option<Vec<u8>>)
    requires
        key@.len() == 32,
    ensures
        (match r {
            Some(p) => gcm_open_of(key@, cipher_text@) == Some(p@),
            None => gcm_open_of(key@, cipher_text@) is None,
        }),
{
    let k = Key::<Aes256Gcm>::from_slice(key.as_slice());
    let cipher = Aes256Gcm::new(k);
    let nonce = Nonce::from_slice(b"unique nonce");
    cipher.decrypt(nonce, cipher_text.as_slice()).ok()
}

/// Relies on `String::from_utf8`: the string whose UTF-8 encoding is
/// exactly the given bytes, absent when they are not valid UTF-8.
#[verifier::external_body]
fn bytes_to_string(v: Vec<u8>) -> (r: Option<String>)
    ensures
        match r {
            Some(s) => valid_utf8(v@) && encode_utf8(s@) == v@,
            None => !valid_utf8(v@),
        },
{
    String::from_utf8(v).ok()
}

/// Encrypts a sensitive value under a 32-byte key: the ciphertext is
/// rendered in hexadecimal. The plaintext must stay within the
/// cipher's documented ceiling of 2^36 bytes; beyond it the cipher
/// itself reports an error.
pub fn encrypt_data(data: &str, key: &Vec<u8>) -> (r: Result<String, AppError>)
    requires
        key@.len() == 32,
        data.spec_bytes().len() <= 0x10_0000_0000,
    ensures
        r matches Ok(h) && h@ == spec_hex_of(gcm_seal_of(key@, data.spec_bytes())) && gcm_open_of(
            key@,
            gcm_seal_of(key@, data.spec_bytes()),
        ) == Some(data.spec_bytes()),
{
    let cipher_text = gcm_seal(key, data.as_bytes());
    Ok(hex_encode(&cipher_text))
}

/// Decrypts a hexadecimal ciphertext under a 32-byte key: the hex must
/// read back, the ciphertext must authenticate, and the plaintext must
/// be text.
pub fn decrypt_data(encrypted: &str, key: &Vec<u8>) -> (r: Result<String, AppError>)
    requires
        key@.len() == 32,
    ensures
        (encrypted@.len() % 2 == 0 && (forall|i: int|
            0 <= i < encrypted@.len() ==> spec_hex_val(#[trigger] encrypted@[i]) < 16)) ==> (
        match gcm_open_of(key@, spec_hex_decode(encrypted@)) {
            Some(p) => if valid_utf8(p) {
                r matches Ok(s) && encode_utf8(s@) == p
            } else {
                r is Err
            },
            None => r is Err,
        }),
        encrypted@.len() % 2 != 0 || (exists|i: int|
            0 <= i < encrypted@.len() && spec_hex_val(#[trigger] encrypted@[i]) >= 16) ==> r
            is Err,
{
    let cipher_text = match hex_decode(encrypted) {
        Some(v) => v,
        None => {
            return Err(AppError::Encryption(String::from_str("hex decoding failed")));
        },
    };
    let plain = match gcm_open(key, &cipher_text) {
        Some(p) => p,
        None => {
            return Err(AppError::Encryption(String::from_str("decryption failed")));
        },
    };
    match bytes_to_string(plain) {
        Some(s) => Ok(s),
        None => Err(AppError::Encryption(String::from_str("decrypted data is not text"))),
    }
}

} // verus!
