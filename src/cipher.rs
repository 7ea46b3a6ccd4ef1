//! The URL cipher: AES-256-GCM over a destination URL's UTF-8 bytes, with a
//! fresh random nonce for every encryption. The stored token is the lowercase
//! hexadecimal form of the nonce followed by the ciphertext and its tag.
use aes_gcm::aead::generic_array::GenericArray;
use aes_gcm::aead::Aead;
use aes_gcm::{Aes256Gcm, KeyInit, Nonce};
use vstd::prelude::*;
use vstd::slice::slice_to_vec;
use vstd::string::*;
use vstd::utf8::*;

use crate::hex::{
    hex_bytes,
    hex_decode,
    hex_encode,
    hex_lower,
    is_hex_lower,
    lemma_hex_round_trip,
    lemma_hex_text_round_trip,
    random_bytes,
};

verus! {

/// Length in bytes of an AES-256 key.
pub const KEY_LEN: usize = 32;

/// Length in bytes of an AES-GCM nonce.
pub const NONCE_LEN: usize = 12;

/// Length in bytes of the authentication tag.
pub const TAG_LEN: usize = 16;

/// The longest plaintext, in bytes, that AES-GCM encrypts.
pub const PLAINTEXT_MAX: u64 = 68719476736;

/// Why a URL could not be encrypted or a token could not be decrypted.
#[derive(Debug, Clone, Copy, PartialEq, Eq, Structural)]
pub enum CipherError {
    /// The key material is absent or has the wrong length.
    Configuration,
    /// Encryption failed, or no random nonce could be drawn.
    Crypto,
    /// The token is not lowercase hexadecimal text of at least a nonce's length.
    Decode,
    /// The authentication tag does not verify: tampering or another key.
    Authentication,
    /// The decrypted bytes are not UTF-8 text.
    Encoding,
}

/// The AES-256-GCM ciphertext, tag appended, of `plaintext` under `key` and
/// `nonce`, without associated data.
pub uninterp spec fn aes256gcm_seal(key: Seq<u8>, nonce: Seq<u8>, plaintext: Seq<u8>) -> Seq<u8>;

/// A URL that AES-GCM can encrypt.
pub open spec fn sealable(url: Seq<char>) -> bool {
    encode_utf8(url).len() <= PLAINTEXT_MAX
}

/// The token that stores `url` encrypted under `key` and `nonce`.
pub open spec fn sealed_token(key: Seq<u8>, nonce: Seq<u8>, url: Seq<char>) -> Seq<char> {
    hex_lower(nonce + aes256gcm_seal(key, nonce, encode_utf8(url)))
}

/// Text that has the shape of a token: hexadecimal, at least a nonce long,
/// and no longer than a nonce and the ciphertext of the longest plaintext.
pub open spec fn is_token(t: Seq<char>) -> bool {
    &&& is_hex_lower(t)
    &&& hex_bytes(t).len() >= NONCE_LEN
    &&& hex_bytes(t).len() <= NONCE_LEN + PLAINTEXT_MAX + TAG_LEN
}

/// The nonce written at the front of a token.
pub open spec fn token_nonce(t: Seq<char>) -> Seq<u8> {
    hex_bytes(t).subrange(0, NONCE_LEN as int)
}

/// The ciphertext written after the nonce in a token.
pub open spec fn token_sealed(t: Seq<char>) -> Seq<u8> {
    hex_bytes(t).subrange(NONCE_LEN as int, hex_bytes(t).len() as int)
}

/// `p` is a plaintext that AES-GCM could have sealed into the token `t`.
pub open spec fn seals_into(key: Seq<u8>, t: Seq<char>, p: Seq<u8>) -> bool {
    p.len() <= PLAINTEXT_MAX && aes256gcm_seal(key, token_nonce(t), p) == token_sealed(t)
}

/// Why the token `t` does not decrypt under `key`, should it fail: it is no
/// token, no plaintext seals into it, or that plaintext is not UTF-8.
pub open spec fn decrypt_failure(key: Seq<u8>, t: Seq<char>) -> CipherError {
    if !is_token(t) {
        CipherError::Decode
    } else if !exists|p: Seq<u8>| #[trigger] seals_into(key, t, p) {
        CipherError::Authentication
    } else {
        CipherError::Encoding
    }
}

/// The token `t` is `url` encrypted under `key` with the nonce `t` carries.
pub open spec fn opens_to(key: Seq<u8>, t: Seq<char>, url: Seq<char>) -> bool {
    is_token(t) && t == sealed_token(key, token_nonce(t), url)
}

/// Relies on aes-gcm's `Aes256Gcm::encrypt` (the `Aead` trait): it fails only
/// on a plaintext longer than `P_MAX` bytes, and appends a 16-byte tag to a
/// ciphertext as long as the plaintext.
#[verifier::external_body]
fn aes_seal(key: &[u8], nonce: &[u8], plaintext: &[u8]) -> (r: Option<Vec<u8>>)
    requires
        key@.len() == KEY_LEN,
        nonce@.len() == NONCE_LEN,
    ensures
        r matches Some(c) ==> c@ == aes256gcm_seal(key@, nonce@, plaintext@),
        r matches Some(c) ==> c@.len() == plaintext@.len() + TAG_LEN,
        r is Some <==> plaintext@.len() <= PLAINTEXT_MAX,
{
    let cipher = Aes256Gcm::new(GenericArray::from_slice(key));
    cipher.encrypt(Nonce::from_slice(nonce), plaintext).ok()
}

/// Relies on aes-gcm's `Aes256Gcm::decrypt` (the `Aead` trait): it returns a
/// plaintext only when the tag verifies, and that plaintext encrypts back to
/// the given ciphertext; the ciphertext of a plaintext within `P_MAX` bytes
/// always decrypts to it. The plaintext is the ciphertext less its 16-byte
/// tag. `Aead::decrypt` removes the tag before aes-gcm checks the rest against
/// `C_MAX`, so the caller keeps the whole ciphertext within `P_MAX` plus the tag.
#[verifier::external_body]
fn aes_open(key: &[u8], nonce: &[u8], ciphertext: &[u8]) -> (r: Option<Vec<u8>>)
    requires
        key@.len() == KEY_LEN,
        nonce@.len() == NONCE_LEN,
        ciphertext@.len() <= PLAINTEXT_MAX + TAG_LEN,
    ensures
        r matches Some(p) ==> aes256gcm_seal(key@, nonce@, p@) == ciphertext@,
        r matches Some(p) ==> p@.len() + TAG_LEN == ciphertext@.len(),
        forall|p: Seq<u8>| {
            &&& p.len() <= PLAINTEXT_MAX
            &&& #[trigger] aes256gcm_seal(key@, nonce@, p) == ciphertext@
        } ==> {
            &&& r is Some
            &&& r.unwrap()@ == p
        },
{
    let cipher = Aes256Gcm::new(GenericArray::from_slice(key));
    cipher.decrypt(Nonce::from_slice(nonce), ciphertext).ok()
}

/// Relies on `String::from_utf8`: it succeeds exactly on valid UTF-8 and keeps
/// the bytes.
#[verifier::external_body]
fn utf8_string(bytes: Vec<u8>) -> (r: Option<String>)
    ensures
        r is Some <==> valid_utf8(bytes@),
        r matches Some(s) ==> s@ == decode_utf8(bytes@),
{
    String::from_utf8(bytes).ok()
}

/// The process-wide symmetric key.
pub struct EncryptionParameter {
    key: Vec<u8>,
}

impl EncryptionParameter {
    #[verifier::type_invariant]
    spec fn key_has_length(&self) -> bool {
        self.key@.len() == KEY_LEN
    }

    /// The key's bytes.
    pub closed spec fn key(&self) -> Seq<u8> {
        self.key@
    }

    /// Takes a key of exactly `KEY_LEN` bytes; any other length is a
    /// configuration error.
    pub fn new(key: &[u8]) -> (r: Result<EncryptionParameter, CipherError>)
        ensures
            r is Ok <==> key@.len() == KEY_LEN,
            r matches Ok(p) ==> p.key() == key@,
            r matches Err(e) ==> e == CipherError::Configuration,
    {
        if key.len() == KEY_LEN {
            Ok(EncryptionParameter { key: slice_to_vec(key) })
        } else {
            Err(CipherError::Configuration)
        }
    }
}

/// Encrypts `url` under the key and the given nonce.
pub fn encrypt_url_with_nonce(param: &EncryptionParameter, nonce: &[u8], url: &str) -> (r: Result<
    String,
    CipherError,
>)
    requires
        nonce@.len() == NONCE_LEN,
    ensures
        r matches Ok(t) ==> t@ == sealed_token(param.key(), nonce@, url@),
        r matches Ok(t) ==> opens_to(param.key(), t@, url@),
        r matches Ok(t) ==> t@.len() == 2 * (NONCE_LEN + url.spec_bytes().len() + TAG_LEN),
        r is Ok <==> sealable(url@),
        r matches Err(e) ==> e == CipherError::Crypto,
{
    proof {
        use_type_invariant(param);
    }
    match aes_seal(param.key.as_slice(), nonce, url.as_bytes()) {
        Some(sealed) => {
            let mut bytes = slice_to_vec(nonce);
            bytes.extend_from_slice(sealed.as_slice());
            let token = hex_encode(bytes.as_slice());
            proof {
                assert(bytes@ =~= nonce@ + sealed@);
                lemma_token_nonce(param.key(), nonce@, url@);
            }
            Ok(token)
        },
        None => Err(CipherError::Crypto),
    }
}

/// A token made with a nonce carries that nonce and has a token's shape.
pub proof fn lemma_token_nonce(key: Seq<u8>, nonce: Seq<u8>, url: Seq<char>)
    requires
        nonce.len() == NONCE_LEN,
        aes256gcm_seal(key, nonce, encode_utf8(url)).len() <= PLAINTEXT_MAX + TAG_LEN,
    ensures
        is_token(sealed_token(key, nonce, url)),
        token_nonce(sealed_token(key, nonce, url)) == nonce,
        opens_to(key, sealed_token(key, nonce, url), url),
{
    let b = nonce + aes256gcm_seal(key, nonce, encode_utf8(url));
    lemma_hex_round_trip(b);
    assert(b.subrange(0, NONCE_LEN as int) =~= nonce);
}

/// Encrypts `url` under the key and a fresh random nonce.
pub fn encrypt_url(param: &EncryptionParameter, url: &str) -> (r: Result<String, CipherError>)
    ensures
        r matches Ok(t) ==> t@ == sealed_token(param.key(), token_nonce(t@), url@),
        r matches Ok(t) ==> opens_to(param.key(), t@, url@) && sealable(url@),
        r matches Ok(t) ==> t@.len() == 2 * (NONCE_LEN + url.spec_bytes().len() + TAG_LEN),
        r matches Err(e) ==> e == CipherError::Crypto,
{
    match random_bytes(NONCE_LEN) {
        Some(nonce) => encrypt_url_with_nonce(param, nonce.as_slice(), url),
        None => Err(CipherError::Crypto),
    }
}

/// Decrypts a token back to its URL.
pub fn decrypt_url(param: &EncryptionParameter, encrypted_url: &str) -> (r: Result<
    String,
    CipherError,
>)
    ensures
        r == Err::<String, CipherError>(CipherError::Decode) <==> !is_token(encrypted_url@),
        r matches Ok(u) ==> opens_to(param.key(), encrypted_url@, u@) && sealable(u@),
        r matches Err(e) ==> e == decrypt_failure(param.key(), encrypted_url@),
        r == Err::<String, CipherError>(CipherError::Authentication) <==> {
            &&& is_token(encrypted_url@)
            &&& !exists|p: Seq<u8>| #[trigger] seals_into(param.key(), encrypted_url@, p)
        },
        r == Err::<String, CipherError>(CipherError::Encoding) <==> {
            &&& is_token(encrypted_url@)
            &&& exists|p: Seq<u8>|
                #[trigger] seals_into(param.key(), encrypted_url@, p) && !valid_utf8(p)
        },
        forall|u: Seq<char>|
            #[trigger] opens_to(param.key(), encrypted_url@, u) && sealable(u) ==> r == Ok::<
                String,
                CipherError,
            >(r.unwrap()) && r.unwrap()@ == u,
        r matches Err(e) ==> e == CipherError::Decode || e == CipherError::Authentication || e
            == CipherError::Encoding,
{
    proof {
        use_type_invariant(param);
    }
    let bytes = match hex_decode(encrypted_url) {
        Some(b) => b,
        None => {
            return Err(CipherError::Decode);
        },
    };
    if bytes.len() < NONCE_LEN || (bytes.len() - NONCE_LEN) as u64 > PLAINTEXT_MAX + TAG_LEN as u64 {
        return Err(CipherError::Decode);
    }
    let (nonce, sealed) = bytes.as_slice().split_at(NONCE_LEN);
    let ghost t = encrypted_url@;
    proof {
        lemma_hex_text_round_trip(t);
        assert(bytes@ =~= nonce@ + sealed@);
        assert(token_nonce(t) == nonce@);
        assert(token_sealed(t) =~= sealed@);
        assert forall|u: Seq<char>| #[trigger] opens_to(param.key(), t, u) implies aes256gcm_seal(
            param.key(),
            nonce@,
            encode_utf8(u),
        ) == sealed@ by {
            let b = nonce@ + aes256gcm_seal(param.key(), nonce@, encode_utf8(u));
            lemma_hex_round_trip(b);
            assert(b =~= bytes@);
            assert(b.subrange(NONCE_LEN as int, b.len() as int) =~= aes256gcm_seal(
                param.key(),
                nonce@,
                encode_utf8(u),
            ));
            assert(bytes@.subrange(NONCE_LEN as int, bytes@.len() as int) =~= sealed@);
        }
    }
    let plain = match aes_open(param.key.as_slice(), nonce, sealed) {
        Some(p) => p,
        None => {
            proof {
                assert forall|u: Seq<char>| #[trigger]
                    opens_to(param.key(), t, u) implies !sealable(u) by {
                    if sealable(u) {
                        assert(aes256gcm_seal(param.key(), nonce@, encode_utf8(u)) == sealed@);
                    }
                }
            }
            proof {
                assert forall|q: Seq<u8>| !#[trigger] seals_into(param.key(), t, q) by {
                    if seals_into(param.key(), t, q) {
                        assert(aes256gcm_seal(param.key(), nonce@, q) == sealed@);
                    }
                }
            }
            return Err(CipherError::Authentication);
        },
    };
    let ghost p = plain@;
    proof {
        assert(seals_into(param.key(), t, p));
        assert forall|q: Seq<u8>| #[trigger] seals_into(param.key(), t, q) implies q == p by {
            assert(aes256gcm_seal(param.key(), nonce@, q) == sealed@);
        }
    }
    match utf8_string(plain) {
        Some(s) => {
            proof {
                decode_utf8_encode_utf8(p);
                assert(encode_utf8(s@) == p);
                assert(!(exists|q: Seq<u8>|
                    #[trigger] seals_into(param.key(), t, q) && !valid_utf8(q)));
                assert(bytes@ =~= nonce@ + aes256gcm_seal(param.key(), nonce@, encode_utf8(s@)));
                assert forall|u: Seq<char>| #[trigger]
                    opens_to(param.key(), t, u) && sealable(u) implies s@ == u by {
                    assert(aes256gcm_seal(param.key(), nonce@, encode_utf8(u)) == sealed@);
                    encode_utf8_decode_utf8(u);
                }
            }
            Ok(s)
        },
        None => {
            proof {
                assert forall|u: Seq<char>| #[trigger]
                    opens_to(param.key(), t, u) implies !sealable(u) by {
                    if sealable(u) {
                        assert(aes256gcm_seal(param.key(), nonce@, encode_utf8(u)) == sealed@);
                        encode_utf8_valid_utf8(u);
                    }
                }
            }
            Err(CipherError::Encoding)
        },
    }
}

/// A destination URL in its stored, encrypted form.
pub struct EncryptedRedirectUrl(pub String);

impl EncryptedRedirectUrl {
    /// Encrypts `url` under the key and a fresh nonce.
    pub fn encrypt(param: &EncryptionParameter, url: &str) -> (r: Result<EncryptedRedirectUrl, CipherError>)
        ensures
            r matches Ok(e) ==> opens_to(param.key(), e.0@, url@) && sealable(url@),
            r matches Err(e) ==> e == CipherError::Crypto,
    {
        match encrypt_url(param, url) {
            Ok(t) => Ok(EncryptedRedirectUrl(t)),
            Err(e) => Err(e),
        }
    }

    pub fn as_str(&self) -> (r: &str)
        ensures
            r@ == self.0@,
    {
        self.0.as_str()
    }
}

/// A destination URL recovered from its stored form.
pub struct DecryptedRedirectUrl(pub String);

impl DecryptedRedirectUrl {
    /// Decrypts a stored token.
    pub fn decrypt(param: &EncryptionParameter, encrypted_url: &str) -> (r: Result<
        DecryptedRedirectUrl,
        CipherError,
    >)
        ensures
            r matches Err(e) ==> (e == CipherError::Decode <==> !is_token(encrypted_url@)),
            r matches Ok(d) ==> opens_to(param.key(), encrypted_url@, d.0@),
            forall|u: Seq<char>|
                #[trigger] opens_to(param.key(), encrypted_url@, u) && sealable(u) ==> (r matches Ok(
                    d,
                ) && d.0@ == u),
    {
        match decrypt_url(param, encrypted_url) {
            Ok(u) => Ok(DecryptedRedirectUrl(u)),
            Err(e) => Err(e),
        }
    }

    pub fn as_str(&self) -> (r: &str)
        ensures
            r@ == self.0@,
    {
        self.0.as_str()
    }
}

/// A token changed anywhere after its nonce never decrypts to the URL the
/// genuine token held: decryption only yields a URL whose encryption under
/// the token's nonce is that very token.
pub proof fn lemma_tampered_token(key: Seq<u8>, genuine: Seq<char>, tampered: Seq<char>, url: Seq<char>)
    requires
        opens_to(key, genuine, url),
        tampered != genuine,
        is_token(tampered) ==> token_nonce(tampered) == token_nonce(genuine),
    ensures
        !opens_to(key, tampered, url),
{
}

} // verus!
