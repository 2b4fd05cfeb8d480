//! The hashing, signing and encryption provider the ledger relies on.
//! Signing is a placeholder scheme built from SHA-256 digests; a real
//! asymmetric scheme can take its place behind the same functions.

use vstd::prelude::*;
use vstd::string::*;
use vstd::utf8::encode_utf8;
use vstd::utf8::encode_utf8_decode_utf8;
use crate::encoding::{hex_decodable, hex_decode, hex_decoded, hex_of, hex_encode, lemma_hex_round_trip};
use crate::error::LedgerError;

verus! {

/// The SHA-256 digest of the UTF-8 bytes of a text.
pub uninterp spec fn sha256_of_text(s: Seq<char>) -> Seq<u8>;

/// The lowercase hexadecimal SHA-256 digest of a text: 64 characters.
pub open spec fn digest_hex(s: Seq<char>) -> Seq<char> {
    hex_of(sha256_of_text(s))
}

/// The public key that belongs to a private key: the first 40 characters of
/// its digest.
pub open spec fn public_key_of(private_key: Seq<char>) -> Seq<char> {
    digest_hex(private_key).subrange(0, 40)
}

/// The signature of a message under a private key.
pub open spec fn signature_of(data: Seq<char>, private_key: Seq<char>) -> Seq<char> {
    digest_hex(data + ":"@ + private_key)
}

/// Whether a signature is accepted for a public key: the first 40 characters
/// of the signature's own digest must be the key.
pub open spec fn signature_accepted(signature: Seq<char>, public_key: Seq<char>) -> bool {
    digest_hex(signature).subrange(0, 40) == public_key
}

/// Why an encryption or decryption failed.
#[derive(Debug, Clone, Copy, PartialEq, Eq, Structural)]
pub enum CryptoError {
    /// The key is not an even number of hexadecimal digits.
    InvalidKey,
    /// The key decodes to no bytes at all.
    EmptyKey,
    /// The encrypted text is not an even number of hexadecimal digits.
    InvalidCiphertext,
    /// The decrypted bytes are not UTF-8 text.
    InvalidText,
}

/// Each byte combined by exclusive or with the key byte at the same
/// position, the key repeated as often as needed.
pub open spec fn xor_cycle(data: Seq<u8>, key: Seq<u8>) -> Seq<u8> {
    Seq::new(data.len(), |i: int| data[i] ^ key[i % key.len() as int])
}

/// What encrypting text with the given UTF-8 bytes under a key text with
/// the given UTF-8 bytes returns.
pub open spec fn encrypt_outcome(data: Seq<u8>, key: Seq<u8>, r: Result<String, CryptoError>) -> bool {
    if !hex_decodable(key) {
        r == Err::<String, CryptoError>(CryptoError::InvalidKey)
    } else if hex_decoded(key).len() == 0 {
        r == Err::<String, CryptoError>(CryptoError::EmptyKey)
    } else {
        r matches Ok(s) && s@ == hex_of(xor_cycle(data, hex_decoded(key)))
    }
}

/// What decrypting hex text with the given UTF-8 bytes under a key text with
/// the given UTF-8 bytes returns.
pub open spec fn decrypt_outcome(ciphertext: Seq<u8>, key: Seq<u8>, r: Result<String, CryptoError>) -> bool {
    if !hex_decodable(key) {
        r == Err::<String, CryptoError>(CryptoError::InvalidKey)
    } else if hex_decoded(key).len() == 0 {
        r == Err::<String, CryptoError>(CryptoError::EmptyKey)
    } else if !hex_decodable(ciphertext) {
        r == Err::<String, CryptoError>(CryptoError::InvalidCiphertext)
    } else {
        let plain = xor_cycle(hex_decoded(ciphertext), hex_decoded(key));
        match r {
            Ok(s) => encode_utf8(s@) == plain,
            Err(e) => e == CryptoError::InvalidText && forall|t: Seq<char>| encode_utf8(t) != plain,
        }
    }
}

/// Combining twice with the same key gives the bytes back.
proof fn lemma_xor_cycle_twice(data: Seq<u8>, key: Seq<u8>)
    requires
        key.len() > 0,
    ensures
        xor_cycle(xor_cycle(data, key), key) == data,
{
    assert forall|i: int| 0 <= i < data.len() implies #[trigger] xor_cycle(
        xor_cycle(data, key),
        key,
    )[i] == data[i] by {
        let x = data[i];
        let k = key[i % key.len() as int];
        assert((x ^ k) ^ k == x) by (bit_vector);
    }
    assert(xor_cycle(xor_cycle(data, key), key) =~= data);
}

/// Decrypting what `encrypt` returned, under the same key, gives the text
/// back.
pub proof fn lemma_decrypt_inverts_encrypt(
    data: Seq<char>,
    key: Seq<char>,
    ciphertext: String,
    decrypted: Result<String, CryptoError>,
)
    requires
        encrypt_outcome(encode_utf8(data), encode_utf8(key), Ok(ciphertext)),
        decrypt_outcome(encode_utf8(ciphertext@), encode_utf8(key), decrypted),
    ensures
        decrypted matches Ok(s) && s@ == data,
{
    let k = hex_decoded(encode_utf8(key));
    let plain = encode_utf8(data);
    lemma_hex_round_trip(xor_cycle(plain, k));
    lemma_xor_cycle_twice(plain, k);
    if let Ok(s) = decrypted {
        encode_utf8_decode_utf8(s@);
        encode_utf8_decode_utf8(data);
    }
}

fn xor_with_key(data: &[u8], key: &Vec<u8>) -> (r: Vec<u8>)
    requires
        key@.len() > 0,
    ensures
        r@ == xor_cycle(data@, key@),
{
    let mut out: Vec<u8> = Vec::new();
    let mut i: usize = 0;
    while i < data.len()
        invariant
            i <= data@.len(),
            key@.len() > 0,
            out@ =~= xor_cycle(data@, key@).subrange(0, i as int),
        decreases data@.len() - i,
    {
        out.push(data[i] ^ key[i % key.len()]);
        i = i + 1;
    }
    out
}

/// Relies on `String::from_utf8`: the text whose UTF-8 encoding the bytes
/// are, if there is one.
#[verifier::external_body]
fn utf8_text(bytes: Vec<u8>) -> (r: Option<String>)
    ensures
        r matches Some(s) ==> encode_utf8(s@) == bytes@,
        r is None ==> forall|t: Seq<char>| encode_utf8(t) != bytes@,
{
    String::from_utf8(bytes).ok()
}

/// Relies on sha2::Sha256 (through `Digest::digest`): the 32-byte SHA-256
/// digest of the text's UTF-8 bytes.
#[verifier::external_body]
fn sha256_digest(data: &str) -> (r: Vec<u8>)
    ensures
        r@ == sha256_of_text(data@),
        r@.len() == 32,
{
    <sha2::Sha256 as sha2::Digest>::digest(data.as_bytes()).to_vec()
}

/// Relies on rand's `thread_rng` and `Rng::gen`: 32 random bytes.
#[verifier::external_body]
fn random_key_bytes() -> (r: Vec<u8>)
    ensures
        r@.len() == 32,
{
    let key: [u8; 32] = rand::Rng::gen(&mut rand::thread_rng());
    key.to_vec()
}

/// Hash a text with SHA-256 and return the lowercase hexadecimal digest.
pub fn hash_sha256(data: &str) -> (r: String)
    ensures
        r@ == digest_hex(data@),
        r@.len() == 64,
{
    let digest = sha256_digest(data);
    hex_encode(&digest)
}

/// A fresh random 32-byte key, hex encoded.
pub fn generate_key() -> (r: String)
    ensures
        r@.len() == 64,
        exists|b: Seq<u8>| b.len() == 32 && r@ == hex_of(b),
{
    let key = random_key_bytes();
    hex_encode(&key)
}

/// Encrypt text with a hex-encoded key by repeating exclusive or; the
/// result is hex encoded.
pub fn encrypt(data: &str, key: &str) -> (r: Result<String, CryptoError>)
    ensures
        encrypt_outcome(data.spec_bytes(), key.spec_bytes(), r),
{
    let key_bytes = match hex_decode(key) {
        Some(k) => k,
        None => {
            return Err(CryptoError::InvalidKey);
        },
    };
    if key_bytes.len() == 0 {
        return Err(CryptoError::EmptyKey);
    }
    let encrypted = xor_with_key(data.as_bytes(), &key_bytes);
    Ok(hex_encode(&encrypted))
}

/// Undo `encrypt`: decode the hex text, repeat the exclusive or with the
/// key, and read the bytes as UTF-8.
pub fn decrypt(encrypted_data: &str, key: &str) -> (r: Result<String, CryptoError>)
    ensures
        decrypt_outcome(encrypted_data.spec_bytes(), key.spec_bytes(), r),
{
    let key_bytes = match hex_decode(key) {
        Some(k) => k,
        None => {
            return Err(CryptoError::InvalidKey);
        },
    };
    if key_bytes.len() == 0 {
        return Err(CryptoError::EmptyKey);
    }
    let data_bytes = match hex_decode(encrypted_data) {
        Some(d) => d,
        None => {
            return Err(CryptoError::InvalidCiphertext);
        },
    };
    let decrypted = xor_with_key(data_bytes.as_slice(), &key_bytes);
    match utf8_text(decrypted) {
        Some(text) => Ok(text),
        None => Err(CryptoError::InvalidText),
    }
}

/// A fresh key pair: a random private key and the public key derived from it.
pub fn generate_keypair() -> (r: (String, String))
    ensures
        r.0@.len() == 64,
        r.1@ == public_key_of(r.0@),
        r.1@.len() == 40,
{
    let private_key = generate_key();
    let digest = hash_sha256(private_key.as_str());
    let public_key = String::from_str(digest.as_str().substring_char(0, 40));
    (private_key, public_key)
}

/// Sign a message with a private key. The placeholder scheme cannot fail;
/// the `Result` leaves room for a provider that can.
pub fn sign_data(data: &str, private_key: &str) -> (r: Result<String, LedgerError>)
    ensures
        r matches Ok(s) && s@ == signature_of(data@, private_key@),
{
    let message = String::from_str(data).concat(":").concat(private_key);
    Ok(hash_sha256(message.as_str()))
}

/// Check a signature against a public key under the placeholder scheme.
pub fn verify_signature(data: &str, signature: &str, public_key: &str) -> (r: bool)
    ensures
        r == signature_accepted(signature@, public_key@),
{
    let _ = data;
    let digest = hash_sha256(signature);
    let derived = String::from_str(digest.as_str().substring_char(0, 40));
    let expected = String::from_str(public_key);
    derived == expected
}

} // verus!
