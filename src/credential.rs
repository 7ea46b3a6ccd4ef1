//! The credential guard: Argon2 digests of credentials, in the self-describing
//! PHC string format, and their verification.
use argon2::password_hash::{PasswordHash, PasswordHasher, PasswordVerifier, SaltString};
use argon2::{Algorithm, Argon2, Params, Version};
use vstd::prelude::*;
use vstd::string::*;
use vstd::utf8::encode_utf8;

use crate::hex::random_bytes;

verus! {

/// Length in bytes of the salt drawn for each new digest.
pub const SALT_LEN: usize = 16;

/// The shortest salt, in bytes, that Argon2 takes.
pub const MIN_SALT_LEN: usize = 8;

/// The longest salt, in bytes, whose B64 form fits a PHC salt field.
pub const MAX_SALT_LEN: usize = 48;

/// The largest degree of parallelism that Argon2 takes.
pub const MAX_P_COST: u32 = 0xFFFFFF;

/// The longest credential, in bytes, that Argon2 takes.
pub const MAX_PASSWORD_LEN: u64 = 0xFFFFFFFF;

/// The settings under which Argon2 derives a digest: a known algorithm name
/// and version, at least eight blocks of memory per lane, at least one pass,
/// between one and `MAX_P_COST` lanes, and a salt of 8 to 48 bytes.
pub open spec fn argon2_params_ok(
    variant: Seq<char>,
    version: u32,
    memory_cost: u32,
    time_cost: u32,
    parallelism: u32,
    salt_len: nat,
) -> bool {
    &&& (variant == "argon2d"@ || variant == "argon2i"@ || variant == "argon2id"@)
    &&& (version == 0x10 || version == 0x13)
    &&& memory_cost >= 8
    &&& memory_cost >= 8 * parallelism
    &&& time_cost >= 1
    &&& 1 <= parallelism <= MAX_P_COST
    &&& MIN_SALT_LEN <= salt_len <= MAX_SALT_LEN
}

pub open spec fn is_ascii_digit(c: u8) -> bool {
    48 <= c <= 57
}

/// At `i` the text holds `p=` followed by nine or more digits: a degree of
/// parallelism of at least 10^8, which no usable digest carries.
pub open spec fn long_p_field_at(b: Seq<u8>, i: int) -> bool {
    &&& 0 <= i
    &&& i + 11 <= b.len()
    &&& b[i] == 112
    &&& b[i + 1] == 61
    &&& forall|k: int| 2 <= k < 11 ==> #[trigger] is_ascii_digit(b[i + k])
}

/// The digest's text holds no oversized `p=` field.
pub open spec fn p_costs_bounded(b: Seq<u8>) -> bool {
    forall|i: int| !#[trigger] long_p_field_at(b, i)
}

/// Why a credential could not be hashed or did not verify.
#[derive(Debug, Clone, Copy, PartialEq, Eq, Structural)]
pub enum CredentialError {
    /// The hashing settings are absent or unusable.
    Configuration,
    /// The key derivation failed, or no random salt could be drawn.
    Crypto,
    /// The stored digest cannot be parsed, or names parameters that Argon2 refuses.
    MalformedDigest,
    /// The credential does not match the digest.
    Mismatch,
}

/// The digest that Argon2 computes for a credential under the given
/// algorithm name, version, costs and salt, written as a PHC string.
pub uninterp spec fn argon2_phc(
    variant: Seq<char>,
    version: u32,
    memory_cost: u32,
    time_cost: u32,
    parallelism: u32,
    salt: Seq<u8>,
    password: Seq<u8>,
) -> Seq<char>;

/// Whether a PHC string parses and names parameters that Argon2 can re-derive with.
pub uninterp spec fn argon2_digest_usable(digest: Seq<char>) -> bool;

/// Whether Argon2, re-deriving under the parameters embedded in a digest,
/// obtains the digest's output for the credential.
pub uninterp spec fn argon2_accepts(digest: Seq<char>, password: Seq<u8>) -> bool;

/// The outcome of checking a credential against a stored digest.
pub open spec fn verify_outcome(digest: Seq<char>, password: Seq<u8>) -> Result<(), CredentialError> {
    if !p_costs_bounded(encode_utf8(digest)) || !argon2_digest_usable(digest) {
        Err(CredentialError::MalformedDigest)
    } else if argon2_accepts(digest, password) {
        Ok(())
    } else {
        Err(CredentialError::Mismatch)
    }
}

/// The cost profile used for new digests. Verification never reads it: it
/// uses the parameters embedded in each digest.
pub struct HashingParameter {
    /// The Argon2 algorithm name: `argon2d`, `argon2i` or `argon2id`.
    pub variant: String,
    pub version: u32,
    pub time_cost: u32,
    pub memory_cost: u32,
    pub parallelism_cost: u32,
}

impl HashingParameter {
    pub fn new(
        variant: String,
        version: u32,
        time_cost: u32,
        memory_cost: u32,
        parallelism_cost: u32,
    ) -> (r: HashingParameter)
        ensures
            r.variant@ == variant@,
            r.version == version,
            r.time_cost == time_cost,
            r.memory_cost == memory_cost,
            r.parallelism_cost == parallelism_cost,
    {
        HashingParameter { variant, version, time_cost, memory_cost, parallelism_cost }
    }

    /// The digest of `password` under these parameters and `salt`.
    pub open spec fn digest_of(&self, salt: Seq<u8>, password: Seq<u8>) -> Seq<char> {
        argon2_phc(
            self.variant@,
            self.version,
            self.memory_cost,
            self.time_cost,
            self.parallelism_cost,
            salt,
            password,
        )
    }
}

/// Relies on argon2's `Argon2::hash_password` (after `SaltString::encode_b64`,
/// `Algorithm::new`, `Version::try_from` and `Params::new`): the PHC string it
/// writes embeds the parameters and the salt's unpadded B64 form, so
/// `verify_password` on that string re-derives the same output for the same
/// credential, and another salt that Argon2 takes gives another string. Its only `p=` field is
/// the degree of parallelism, at most eight digits. It fails exactly when one
/// of those calls refuses its input (`argon2_params_ok`) or the credential is
/// longer than `MAX_PASSWORD_LEN`. A parallelism above `MAX_P_COST` would
/// overflow inside `Params::new`, and a salt under three bytes would fail an
/// `expect` in `SaltString::as_salt`; both are excluded.
#[verifier::external_body]
fn argon2_hash(param: &HashingParameter, salt: &[u8], password: &[u8]) -> (r: Result<
    String,
    CredentialError,
>)
    requires
        param.parallelism_cost <= MAX_P_COST,
        MIN_SALT_LEN <= salt@.len() <= MAX_SALT_LEN,
    ensures
        r is Ok <==> {
            &&& argon2_params_ok(
                param.variant@,
                param.version,
                param.memory_cost,
                param.time_cost,
                param.parallelism_cost,
                salt@.len(),
            )
            &&& password@.len() <= MAX_PASSWORD_LEN
        },
        r matches Ok(d) ==> {
            &&& p_costs_bounded(encode_utf8(d@))
            &&& d@ == argon2_phc(
                param.variant@,
                param.version,
                param.memory_cost,
                param.time_cost,
                param.parallelism_cost,
                salt@,
                password@,
            )
            &&& argon2_digest_usable(d@)
            &&& argon2_accepts(d@, password@)
            &&& forall|other: Seq<u8>|
                other != salt@ && MIN_SALT_LEN <= other.len() <= MAX_SALT_LEN ==> #[trigger] argon2_phc(
                    param.variant@,
                    param.version,
                    param.memory_cost,
                    param.time_cost,
                    param.parallelism_cost,
                    other,
                    password@,
                ) != d@
        },
        r matches Err(e) ==> e == CredentialError::Crypto,
{
    let salt = SaltString::encode_b64(salt).map_err(|_| CredentialError::Crypto)?;
    let algorithm = Algorithm::new(param.variant.as_str()).map_err(|_| CredentialError::Crypto)?;
    let version = Version::try_from(param.version).map_err(|_| CredentialError::Crypto)?;
    let params = Params::new(param.memory_cost, param.time_cost, param.parallelism_cost, None)
        .map_err(|_| CredentialError::Crypto)?;
    let hash = Argon2::new(algorithm, version, params).hash_password(password, &salt);
    Ok(hash.map_err(|_| CredentialError::Crypto)?.to_string())
}

/// Relies on `PasswordHash::new` and argon2's `verify_password`, which
/// re-derives under the digest's own parameters: a parse failure or any error
/// other than `Error::Password` means the digest is unusable; `Error::Password`
/// means the outputs differ. A `p=` value of 2^29 or more would overflow
/// inside `Params::new`; `p_costs_bounded` excludes it.
#[verifier::external_body]
fn argon2_verify(digest: &str, password: &[u8]) -> (r: Result<(), CredentialError>)
    requires
        p_costs_bounded(digest.spec_bytes()),
    ensures
        r is Ok <==> {
            &&& argon2_digest_usable(digest@)
            &&& argon2_accepts(digest@, password@)
        },
        r matches Err(e) ==> (e == CredentialError::MalformedDigest <==> !argon2_digest_usable(digest@)),
        r matches Err(e) ==> e == CredentialError::MalformedDigest || e == CredentialError::Mismatch,
{
    let hash = PasswordHash::new(digest).map_err(|_| CredentialError::MalformedDigest)?;
    match Argon2::default().verify_password(password, &hash) {
        Ok(()) => Ok(()),
        Err(argon2::password_hash::Error::Password) => Err(CredentialError::Mismatch),
        Err(_) => Err(CredentialError::MalformedDigest),
    }
}

fn long_p_field(b: &[u8], i: usize) -> (r: bool)
    requires
        i < b@.len(),
    ensures
        r == long_p_field_at(b@, i as int),
{
    if b.len() - i < 11 || b[i] != 112 || b[i + 1] != 61 {
        return false;
    }
    let mut k: usize = 2;
    while k < 11
        invariant
            2 <= k <= 11,
            i + 11 <= b@.len(),
            b@.len() == b.len(),
            forall|j: int| 2 <= j < k ==> #[trigger] is_ascii_digit(b@[i + j]),
        decreases 11 - k,
    {
        if b[i + k] < 48 || b[i + k] > 57 {
            assert(!is_ascii_digit(b@[i + k]));
            return false;
        }
        k = k + 1;
    }
    true
}

/// Whether the text is free of oversized `p=` fields.
pub fn p_costs_within_bounds(b: &[u8]) -> (r: bool)
    ensures
        r == p_costs_bounded(b@),
{
    let mut i: usize = 0;
    while i < b.len()
        invariant
            i <= b@.len(),
            forall|j: int| 0 <= j < i ==> !#[trigger] long_p_field_at(b@, j),
        decreases b@.len() - i,
    {
        if long_p_field(b, i) {
            return false;
        }
        i = i + 1;
    }
    assert forall|j: int| !#[trigger] long_p_field_at(b@, j) by {
        if 0 <= j < i {
        }
    }
    true
}

/// Hashes `password` under `param` with the given salt.
pub fn hash_password_with_salt(param: &HashingParameter, salt: &[u8], password: &str) -> (r: Result<
    String,
    CredentialError,
>)
    ensures
        r is Ok <==> {
            &&& argon2_params_ok(
                param.variant@,
                param.version,
                param.memory_cost,
                param.time_cost,
                param.parallelism_cost,
                salt@.len(),
            )
            &&& password.spec_bytes().len() <= MAX_PASSWORD_LEN
        },
        r matches Ok(d) ==> d@ == param.digest_of(salt@, password.spec_bytes()),
        r matches Ok(d) ==> forall|other: Seq<u8>|
            other != salt@ && MIN_SALT_LEN <= other.len() <= MAX_SALT_LEN ==> #[trigger] param.digest_of(
                other,
                password.spec_bytes(),
            ) != d@,
        r matches Ok(d) ==> verify_outcome(d@, password.spec_bytes()) is Ok,
        r matches Ok(d) ==> forall|q: Seq<u8>| #[trigger] verify_outcome(d@, q) is Ok
            || verify_outcome(d@, q) == Err::<(), CredentialError>(CredentialError::Mismatch),
        r matches Err(e) ==> e == CredentialError::Crypto,
{
    if salt.len() < MIN_SALT_LEN || salt.len() > MAX_SALT_LEN || param.parallelism_cost > MAX_P_COST {
        return Err(CredentialError::Crypto);
    }
    argon2_hash(param, salt, password.as_bytes())
}

/// Hashes `password` under `param` with a fresh random salt.
pub fn hash_password(param: &HashingParameter, password: &str) -> (r: Result<String, CredentialError>)
    ensures
        !argon2_params_ok(
            param.variant@,
            param.version,
            param.memory_cost,
            param.time_cost,
            param.parallelism_cost,
            SALT_LEN as nat,
        ) ==> r is Err,
        r matches Ok(d) ==> exists|salt: Seq<u8>|
            salt.len() == SALT_LEN && d@ == #[trigger] param.digest_of(salt, password.spec_bytes())
                && forall|other: Seq<u8>|
                other != salt && MIN_SALT_LEN <= other.len() <= MAX_SALT_LEN ==> #[trigger] param.digest_of(
                    other,
                    password.spec_bytes(),
                ) != d@,
        r matches Ok(d) ==> verify_outcome(d@, password.spec_bytes()) is Ok,
        r matches Ok(d) ==> forall|q: Seq<u8>| #[trigger] verify_outcome(d@, q) is Ok
            || verify_outcome(d@, q) == Err::<(), CredentialError>(CredentialError::Mismatch),
        r matches Err(e) ==> e == CredentialError::Crypto,
{
    match random_bytes(SALT_LEN) {
        Some(salt) => {
            let r = hash_password_with_salt(param, salt.as_slice(), password);
            proof {
                if r is Ok {
                    assert(param.digest_of(salt@, password.spec_bytes()) == r.unwrap()@);
                }
            }
            r
        },
        None => Err(CredentialError::Crypto),
    }
}

/// Checks `password` against a stored digest, under the digest's own parameters.
/// A digest with an oversized `p=` field is malformed without calling Argon2.
pub fn verify_password(hashed_password: &str, password: &str) -> (r: Result<(), CredentialError>)
    ensures
        r == verify_outcome(hashed_password@, password.spec_bytes()),
{
    if !p_costs_within_bounds(hashed_password.as_bytes()) {
        return Err(CredentialError::MalformedDigest);
    }
    match argon2_verify(hashed_password, password.as_bytes()) {
        Ok(()) => Ok(()),
        Err(e) => Err(e),
    }
}

/// A stored credential digest.
pub struct HashedPassword(pub String);

impl View for HashedPassword {
    type V = Seq<char>;

    open spec fn view(&self) -> Seq<char> {
        self.0@
    }
}

impl HashedPassword {
    pub fn new(value: &str) -> (r: HashedPassword)
        ensures
            r@ == value@,
    {
        HashedPassword(value.to_owned())
    }

    /// Hashes a plaintext credential with a fresh salt.
    pub fn from_plaintext(param: &HashingParameter, password: &str) -> (r: Result<
        HashedPassword,
        CredentialError,
    >)
        ensures
            r matches Ok(h) ==> verify_outcome(h@, password.spec_bytes()) is Ok,
            r matches Ok(h) ==> exists|salt: Seq<u8>|
                salt.len() == SALT_LEN && h@ == #[trigger] param.digest_of(salt, password.spec_bytes()),
            r matches Err(e) ==> e == CredentialError::Crypto,
    {
        match hash_password(param, password) {
            Ok(d) => Ok(HashedPassword(d)),
            Err(e) => Err(e),
        }
    }

    pub fn as_str(&self) -> (r: &str)
        ensures
            r@ == self@,
    {
        self.0.as_str()
    }

    pub fn verify(&self, password: &str) -> (r: Result<(), CredentialError>)
        ensures
            r == verify_outcome(self@, password.spec_bytes()),
    {
        verify_password(self.0.as_str(), password)
    }
}

} // verus!
