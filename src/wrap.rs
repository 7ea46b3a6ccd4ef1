//! The wrap entity in its three forms (requested, stored, opened) and the
//! steps of its lifecycle that work on one record: sealing a new wrap for
//! storage, opening a stored one, and resolving it with a credential.
use vstd::prelude::*;
use vstd::string::*;
use vstd::utf8::encode_utf8;

use crate::auth_type::WrapAuthType;
use crate::cipher::{
    decrypt_failure,
    decrypt_url,
    encrypt_url_with_nonce,
    opens_to,
    sealed_token,
    NONCE_LEN,
    sealable,
    CipherError,
    EncryptionParameter,
};
use crate::credential::{
    hash_password_with_salt,
    verify_outcome,
    verify_password,
    CredentialError,
    HashedPassword,
    HashingParameter,
    MAX_PASSWORD_LEN,
    SALT_LEN,
    argon2_params_ok,
};
use crate::hex::random_bytes;

verus! {

/// Why a lifecycle operation did not succeed.
#[derive(Debug, Clone, Copy, PartialEq, Eq, Structural)]
pub enum WrapError {
    /// The requested credential kind number is neither 1 nor 2.
    InvalidAuthType,
    /// No wrap has the identifier.
    NotFound,
    /// The store already holds a wrap with the identifier.
    DuplicateId,
    /// No random identifier could be drawn.
    IdUnavailable,
    /// The wrap was found and the credential verified, but its deadline has passed.
    Expired,
    /// Hashing or verifying the credential failed; `Mismatch` is a wrong credential.
    Credential(CredentialError),
    /// Encrypting or decrypting the destination URL failed.
    Cipher(CipherError),
}

/// A stored credential digest in PHC string format.
pub struct PHCString(pub String);

impl PHCString {
    pub fn from_hashed(h: HashedPassword) -> (r: PHCString)
        ensures
            r.0@ == h@,
    {
        PHCString(h.0)
    }
}

/// A request to create a wrap, as the transport hands it over.
pub struct CreateWrap {
    pub redirect_url: String,
    pub password: String,
    pub auth_type: u32,
    pub comment: String,
    /// Seconds since the Unix epoch.
    pub expiration_at: u32,
}

impl CreateWrap {
    pub fn new(
        redirect_url: String,
        password: String,
        auth_type: u32,
        comment: String,
        expiration_at: u32,
    ) -> (r: CreateWrap)
        ensures
            r.redirect_url@ == redirect_url@,
            r.password@ == password@,
            r.auth_type == auth_type,
            r.comment@ == comment@,
            r.expiration_at == expiration_at,
    {
        CreateWrap { redirect_url, password, auth_type, comment, expiration_at }
    }
}

/// A credential presented to resolve a wrap.
pub struct AuthorizeWrap {
    pub password: String,
}

/// A new wrap with its identifier, before anything is hashed or encrypted.
pub struct NewWrap {
    pub id: String,
    pub redirect_url: String,
    pub password: String,
    pub auth_type: WrapAuthType,
    pub comment: String,
    pub expiration_at: i64,
}

impl NewWrap {
    pub fn new(
        id: String,
        redirect_url: String,
        password: String,
        auth_type: WrapAuthType,
        comment: String,
        expiration_at: i64,
    ) -> (r: NewWrap)
        ensures
            r.id@ == id@,
            r.redirect_url@ == redirect_url@,
            r.password@ == password@,
            r.auth_type == auth_type,
            r.comment@ == comment@,
            r.expiration_at == expiration_at,
    {
        NewWrap { id, redirect_url, password, auth_type, comment, expiration_at }
    }

    /// Gives a creation request its identifier; the credential kind number
    /// must be 1 or 2.
    pub fn from_create(source: CreateWrap, id: String) -> (r: Result<NewWrap, WrapError>)
        ensures
            r is Err <==> !(source.auth_type == 1 || source.auth_type == 2),
            r matches Err(e) ==> e == WrapError::InvalidAuthType,
            r matches Ok(w) ==> {
                &&& w.id@ == id@
                &&& w.redirect_url@ == source.redirect_url@
                &&& w.password@ == source.password@
                &&& w.auth_type.spec_id() == source.auth_type
                &&& w.comment@ == source.comment@
                &&& w.expiration_at == source.expiration_at as i64
            },
    {
        match WrapAuthType::from_id(source.auth_type) {
            Some(auth_type) => Ok(
                NewWrap::new(
                    id,
                    source.redirect_url,
                    source.password,
                    auth_type,
                    source.comment,
                    source.expiration_at as i64,
                ),
            ),
            None => Err(WrapError::InvalidAuthType),
        }
    }
}

/// A wrap as it is stored: the URL encrypted, the credential hashed.
pub struct WrapDocument {
    pub id: String,
    /// The encrypted destination URL token.
    pub redirect_url: String,
    /// The credential digest.
    pub password: String,
    pub auth_type: WrapAuthType,
    pub comment: String,
    /// Seconds since the Unix epoch.
    pub expiration_at: i64,
    /// Seconds since the Unix epoch, stamped when the wrap was sealed.
    pub created_at: i64,
}

/// The stored record `d` holds the request `w`, sealed under `key` at `now`.
pub open spec fn seals(key: Seq<u8>, w: NewWrap, now: i64, d: WrapDocument) -> bool {
    &&& d.id@ == w.id@
    &&& opens_to(key, d.redirect_url@, w.redirect_url@)
    &&& sealable(w.redirect_url@)
    &&& verify_outcome(d.password@, encode_utf8(w.password@)) is Ok
    &&& d.auth_type == w.auth_type
    &&& d.comment@ == w.comment@
    &&& d.expiration_at == w.expiration_at
    &&& d.created_at == now
}


impl WrapDocument {
    /// Hashes the credential with `salt`, encrypts the URL with `nonce`, and
    /// stamps the creation time.
    pub fn seal_with(
        source: NewWrap,
        hashing: &HashingParameter,
        encryption: &EncryptionParameter,
        salt: &[u8],
        nonce: &[u8],
        now: i64,
    ) -> (r: Result<WrapDocument, WrapError>)
        requires
            nonce@.len() == NONCE_LEN,
        ensures
            r matches Ok(d) ==> seals(encryption.key(), source, now, d),
            r matches Ok(d) ==> {
                &&& d.redirect_url@ == sealed_token(encryption.key(), nonce@, source.redirect_url@)
                &&& d.password@ == hashing.digest_of(salt@, encode_utf8(source.password@))
            },
            sealable(source.redirect_url@) ==> !(r matches Err(WrapError::Cipher(_))),
            ({
                &&& sealable(source.redirect_url@)
                &&& argon2_params_ok(
                    hashing.variant@,
                    hashing.version,
                    hashing.memory_cost,
                    hashing.time_cost,
                    hashing.parallelism_cost,
                    salt@.len(),
                )
                &&& encode_utf8(source.password@).len() <= MAX_PASSWORD_LEN
            }) ==> r is Ok,
            r matches Err(WrapError::Credential(_)) <==> {
                &&& sealable(source.redirect_url@)
                &&& !({
                    &&& argon2_params_ok(
                        hashing.variant@,
                        hashing.version,
                        hashing.memory_cost,
                        hashing.time_cost,
                        hashing.parallelism_cost,
                        salt@.len(),
                    )
                    &&& encode_utf8(source.password@).len() <= MAX_PASSWORD_LEN
                })
            },
            r matches Err(e) ==> e == WrapError::Cipher(CipherError::Crypto) || e
                == WrapError::Credential(CredentialError::Crypto),
    {
        let redirect_url = match encrypt_url_with_nonce(encryption, nonce, source.redirect_url.as_str()) {
            Ok(t) => t,
            Err(e) => {
                return Err(WrapError::Cipher(e));
            },
        };
        let password = match hash_password_with_salt(hashing, salt, source.password.as_str()) {
            Ok(d) => d,
            Err(e) => {
                return Err(WrapError::Credential(e));
            },
        };
        Ok(
            WrapDocument {
                id: source.id,
                redirect_url,
                password,
                auth_type: source.auth_type,
                comment: source.comment,
                expiration_at: source.expiration_at,
                created_at: now,
            },
        )
    }

    /// Hashes the credential with a fresh salt, encrypts the URL with a fresh
    /// nonce, and stamps the creation time.
    pub fn seal(
        source: NewWrap,
        hashing: &HashingParameter,
        encryption: &EncryptionParameter,
        now: i64,
    ) -> (r: Result<WrapDocument, WrapError>)
        ensures
            r matches Ok(d) ==> seals(encryption.key(), source, now, d),
            r matches Err(e) ==> e == WrapError::Cipher(CipherError::Crypto) || e
                == WrapError::Credential(CredentialError::Crypto),
    {
        let nonce = match random_bytes(NONCE_LEN) {
            Some(n) => n,
            None => {
                return Err(WrapError::Cipher(CipherError::Crypto));
            },
        };
        let salt = match random_bytes(SALT_LEN) {
            Some(n) => n,
            None => {
                return Err(WrapError::Credential(CredentialError::Crypto));
            },
        };
        WrapDocument::seal_with(source, hashing, encryption, salt.as_slice(), nonce.as_slice(), now)
    }

    /// Checks a credential against the stored digest.
    pub fn verify_password(&self, password: &str) -> (r: Result<(), CredentialError>)
        ensures
            r == verify_outcome(self.password@, password.spec_bytes()),
    {
        verify_password(self.password.as_str(), password)
    }
}

/// A wrap with its destination URL decrypted.
pub struct Wrap {
    pub id: String,
    pub redirect_url: String,
    pub password: PHCString,
    pub auth_type: WrapAuthType,
    pub comment: String,
    pub expiration_at: i64,
    pub created_at: i64,
}

/// `r` is the outcome of opening the stored record `d` under `key`: on
/// success `url` is what the token encrypts, a failure is the cipher's and
/// depends on the key and token alone, and
/// a token made by this key always opens.
pub open spec fn opened<T>(key: Seq<u8>, d: WrapDocument, r: Result<T, WrapError>, url: Seq<char>) -> bool {
    &&& r is Ok ==> opens_to(key, d.redirect_url@, url) && sealable(url)
    &&& r matches Err(e) ==> e == WrapError::Cipher(decrypt_failure(key, d.redirect_url@))
    &&& forall|u: Seq<char>|
        #[trigger] opens_to(key, d.redirect_url@, u) && sealable(u) ==> r is Ok && url == u
}

impl Wrap {
    pub fn new(
        id: String,
        redirect_url: String,
        password: PHCString,
        auth_type: WrapAuthType,
        comment: String,
        expiration_at: i64,
        created_at: i64,
    ) -> (r: Wrap)
        ensures
            r.id@ == id@,
            r.redirect_url@ == redirect_url@,
            r.password.0@ == password.0@,
            r.auth_type == auth_type,
            r.comment@ == comment@,
            r.expiration_at == expiration_at,
            r.created_at == created_at,
    {
        Wrap { id, redirect_url, password, auth_type, comment, expiration_at, created_at }
    }

    /// Decrypts the destination URL of a stored wrap.
    pub fn open(source: WrapDocument, encryption: &EncryptionParameter) -> (r: Result<Wrap, WrapError>)
        ensures
            opened(encryption.key(), source, r, r.unwrap().redirect_url@),
            r matches Ok(w) ==> {
                &&& w.id@ == source.id@
                &&& w.password.0@ == source.password@
                &&& w.auth_type == source.auth_type
                &&& w.comment@ == source.comment@
                &&& w.expiration_at == source.expiration_at
                &&& w.created_at == source.created_at
            },
    {
        match decrypt_url(encryption, source.redirect_url.as_str()) {
            Ok(redirect_url) => Ok(
                Wrap {
                    id: source.id,
                    redirect_url,
                    password: PHCString(source.password),
                    auth_type: source.auth_type,
                    comment: source.comment,
                    expiration_at: source.expiration_at,
                    created_at: source.created_at,
                },
            ),
            Err(e) => Err(WrapError::Cipher(e)),
        }
    }
}

/// What a caller is shown of a wrap: never the credential or its digest.
pub struct WrapView {
    pub id: String,
    pub redirect_url: String,
    pub auth_type: u32,
    pub comment: String,
    pub expiration_at: i64,
}

/// The view `v` shows the stored record `d`, whose URL is `url`.
pub open spec fn shows(d: WrapDocument, url: Seq<char>, v: WrapView) -> bool {
    &&& v.id@ == d.id@
    &&& v.redirect_url@ == url
    &&& v.auth_type == d.auth_type.spec_id()
    &&& v.comment@ == d.comment@
    &&& v.expiration_at == d.expiration_at
}

impl WrapView {
    pub fn from_wrap(w: Wrap) -> (r: WrapView)
        ensures
            r.id@ == w.id@,
            r.redirect_url@ == w.redirect_url@,
            r.auth_type == w.auth_type.spec_id(),
            r.comment@ == w.comment@,
            r.expiration_at == w.expiration_at,
    {
        WrapView {
            id: w.id,
            redirect_url: w.redirect_url,
            auth_type: w.auth_type.id(),
            comment: w.comment,
            expiration_at: w.expiration_at,
        }
    }

    /// Decrypts a stored wrap for display, without any credential.
    pub fn open_document(d: &WrapDocument, encryption: &EncryptionParameter) -> (r: Result<
        WrapView,
        WrapError,
    >)
        ensures
            opened(encryption.key(), *d, r, r.unwrap().redirect_url@),
            r matches Ok(v) ==> shows(*d, v.redirect_url@, v),
    {
        match decrypt_url(encryption, d.redirect_url.as_str()) {
            Ok(redirect_url) => Ok(
                WrapView {
                    id: d.id.clone(),
                    redirect_url,
                    auth_type: d.auth_type.id(),
                    comment: d.comment.clone(),
                    expiration_at: d.expiration_at,
                },
            ),
            Err(e) => Err(WrapError::Cipher(e)),
        }
    }
}

/// Resolves a looked-up record with a credential at time `now`: a missing
/// record is `NotFound`; then the credential is checked; only a verified
/// credential can meet `Expired`, once `now` is past the deadline; only then
/// is the URL decrypted.
pub fn resolve_at(
    document: Option<&WrapDocument>,
    password: &str,
    encryption: &EncryptionParameter,
    now: i64,
) -> (r: Result<WrapView, WrapError>)
    ensures
        document is None ==> r == Err::<WrapView, WrapError>(WrapError::NotFound),
        document matches Some(d) ==> match verify_outcome(d.password@, password.spec_bytes()) {
            Err(e) => r == Err::<WrapView, WrapError>(WrapError::Credential(e)),
            Ok(_) => if now > d.expiration_at {
                r == Err::<WrapView, WrapError>(WrapError::Expired)
            } else {
                &&& opened(encryption.key(), *d, r, r.unwrap().redirect_url@)
                &&& r matches Ok(v) ==> shows(*d, v.redirect_url@, v)
            },
        },
{
    match document {
        None => Err(WrapError::NotFound),
        Some(d) => match d.verify_password(password) {
            Err(e) => Err(WrapError::Credential(e)),
            Ok(()) => if now > d.expiration_at {
                Err(WrapError::Expired)
            } else {
                WrapView::open_document(d, encryption)
            },
        },
    }
}

} // verus!
