//! The wrap lifecycle over a store: create, read without a credential, and
//! resolve with a credential before the deadline.
use vstd::prelude::*;
use vstd::string::*;
use vstd::utf8::encode_utf8;

use crate::cipher::{opens_to, sealable, EncryptionParameter};
use crate::credential::{verify_outcome, HashingParameter};
use crate::hex::{hex_encode, hex_lower, random_bytes};
use crate::wrap::{
    opened,
    resolve_at,
    shows,
    CreateWrap,
    NewWrap,
    WrapDocument,
    WrapError,
    WrapView,
};

verus! {

/// Length in bytes of the random value behind a new identifier.
pub const ID_LEN: usize = 16;

/// Relies on chrono's `Utc::now().timestamp()`: the current time in seconds
/// since the Unix epoch. Nothing is promised of its value. chrono panics when
/// the system clock reads a time before 1970, a state of the machine rather
/// than of any input.
#[verifier::external_body]
fn now_seconds() -> i64 {
    chrono::Utc::now().timestamp()
}

/// A fresh identifier: sixteen random bytes in lowercase hexadecimal.
pub fn generate_id() -> (r: Option<String>)
    ensures
        r matches Some(s) ==> exists|b: Seq<u8>| b.len() == ID_LEN && s@ == #[trigger] hex_lower(b),
{
    match random_bytes(ID_LEN) {
        Some(b) => Some(hex_encode(b.as_slice())),
        None => None,
    }
}

/// Stored wraps, keyed by identifier.
pub struct WrapStore {
    documents: Vec<WrapDocument>,
}

impl WrapStore {
    /// The stored records, in order of insertion.
    pub closed spec fn records(&self) -> Seq<WrapDocument> {
        self.documents@
    }

    /// Whether a record with the identifier is stored.
    pub open spec fn has(&self, id: Seq<char>) -> bool {
        exists|i: int| 0 <= i < self.records().len() && (#[trigger] self.records()[i]).id@ == id
    }

    /// No two records share an identifier.
    pub open spec fn wf(&self) -> bool {
        forall|i: int, j: int|
            0 <= i < self.records().len() && 0 <= j < self.records().len() && i != j
                ==> (#[trigger] self.records()[i]).id@ != (#[trigger] self.records()[j]).id@
    }

    #[verifier::type_invariant]
    spec fn ids_unique(&self) -> bool {
        self.wf()
    }

    /// In a well-formed store an identifier picks out at most one record.
    pub proof fn lemma_id_picks_one(&self, a: WrapDocument, b: WrapDocument)
        requires
            self.wf(),
            self.records().contains(a),
            self.records().contains(b),
            a.id@ == b.id@,
        ensures
            a == b,
    {
        let i = choose|i: int| 0 <= i < self.records().len() && self.records()[i] == a;
        let j = choose|j: int| 0 <= j < self.records().len() && self.records()[j] == b;
        assert(self.records()[i].id@ == self.records()[j].id@);
    }

    pub fn new() -> (r: WrapStore)
        ensures
            r.wf(),
            r.records().len() == 0,
    {
        WrapStore { documents: Vec::new() }
    }

    /// The record with exactly this identifier, if any.
    pub fn get(&self, id: &String) -> (r: Option<&WrapDocument>)
        ensures
            r is Some <==> self.has(id@),
            r matches Some(d) ==> d.id@ == id@ && self.records().contains(*d),
    {
        let mut i: usize = 0;
        while i < self.documents.len()
            invariant
                i <= self.documents@.len(),
                forall|k: int| 0 <= k < i ==> (#[trigger] self.documents@[k]).id@ != id@,
            decreases self.documents@.len() - i,
        {
            if self.documents[i].id == *id {
                return Some(&self.documents[i]);
            }
            i = i + 1;
        }
        None
    }

    /// Adds a record whose identifier is not yet stored.
    pub fn insert(&mut self, document: WrapDocument) -> (r: Result<(), WrapError>)
        ensures
            final(self).wf(),
            old(self).has(document.id@) <==> r is Err,
            r matches Err(e) ==> e == WrapError::DuplicateId && final(self).records() == old(self).records(),
            r is Ok ==> final(self).records() == old(self).records().push(document),
    {
        proof {
            use_type_invariant(&*self);
        }
        if self.get(&document.id).is_some() {
            return Err(WrapError::DuplicateId);
        }
        let mut taken = WrapStore::new();
        core::mem::swap(self, &mut taken);
        let WrapStore { mut documents } = taken;
        documents.push(document);
        *self = WrapStore { documents };
        Ok(())
    }
}

/// What the creator of a wrap is shown: neither the URL nor the credential.
pub struct WrapSummary {
    pub id: String,
    pub auth_type: u32,
    pub comment: String,
    pub expiration_at: i64,
}

/// The wrap lifecycle with its store and the process-wide crypto settings.
pub struct WrapUseCase {
    pub store: WrapStore,
    pub hashing: HashingParameter,
    pub encryption: EncryptionParameter,
}

impl WrapUseCase {
    pub fn new(hashing: HashingParameter, encryption: EncryptionParameter) -> (r: WrapUseCase)
        ensures
            r.store.records().len() == 0,
            r.hashing == hashing,
            r.encryption == encryption,
    {
        WrapUseCase { store: WrapStore::new(), hashing, encryption }
    }

    /// Creates a wrap under the given identifier, stamped at `now`.
    pub fn register_wrap_at(&mut self, source: CreateWrap, id: String, now: i64) -> (r: Result<
        WrapSummary,
        WrapError,
    >)
        ensures
            final(self).hashing == old(self).hashing,
            final(self).encryption == old(self).encryption,
            r == Err::<WrapSummary, WrapError>(WrapError::InvalidAuthType) <==> !(source.auth_type == 1
                || source.auth_type == 2),
            r == Err::<WrapSummary, WrapError>(WrapError::DuplicateId) <==> {
                &&& (source.auth_type == 1 || source.auth_type == 2)
                &&& old(self).store.has(id@)
            },
            r is Err ==> final(self).store.records() == old(self).store.records(),
            r matches Err(e) ==> e == WrapError::InvalidAuthType || e == WrapError::DuplicateId
                || e is Cipher || e is Credential,
            r matches Ok(s) ==> {
                &&& !old(self).store.has(id@)
                &&& s.id@ == id@
                &&& s.auth_type == source.auth_type
                &&& s.comment@ == source.comment@
                &&& s.expiration_at == source.expiration_at as i64
                &&& final(self).store.records().len() == old(self).store.records().len() + 1
                &&& final(self).store.records().drop_last() == old(self).store.records()
                &&& {
                    let d = final(self).store.records().last();
                    &&& d.id@ == id@
                    &&& opens_to(old(self).encryption.key(), d.redirect_url@, source.redirect_url@)
                    &&& sealable(source.redirect_url@)
                    &&& verify_outcome(d.password@, encode_utf8(source.password@)) is Ok
                    &&& d.auth_type.spec_id() == source.auth_type
                    &&& d.comment@ == source.comment@
                    &&& d.expiration_at == source.expiration_at as i64
                    &&& d.created_at == now
                }
            },
    {
        let new_wrap = match NewWrap::from_create(source, id) {
            Ok(w) => w,
            Err(e) => {
                return Err(e);
            },
        };
        if self.store.get(&new_wrap.id).is_some() {
            return Err(WrapError::DuplicateId);
        }
        let document = match WrapDocument::seal(new_wrap, &self.hashing, &self.encryption, now) {
            Ok(d) => d,
            Err(e) => {
                return Err(e);
            },
        };
        let summary = WrapSummary {
            id: document.id.clone(),
            auth_type: document.auth_type.id(),
            comment: document.comment.clone(),
            expiration_at: document.expiration_at,
        };
        match self.store.insert(document) {
            Ok(()) => Ok(summary),
            Err(_) => Err(WrapError::DuplicateId),
        }
    }

    /// Creates a wrap under a fresh random identifier, stamped with the
    /// current time.
    pub fn register_wrap(&mut self, source: CreateWrap) -> (r: Result<WrapSummary, WrapError>)
        ensures
            final(self).hashing == old(self).hashing,
            final(self).encryption == old(self).encryption,
            r == Err::<WrapSummary, WrapError>(WrapError::InvalidAuthType) <==> !(source.auth_type == 1
                || source.auth_type == 2),
            r is Err ==> final(self).store.records() == old(self).store.records(),
            r matches Ok(s) ==> {
                &&& !old(self).store.has(s.id@)
                &&& s.auth_type == source.auth_type
                &&& s.comment@ == source.comment@
                &&& s.expiration_at == source.expiration_at as i64
                &&& final(self).store.records().len() == old(self).store.records().len() + 1
                &&& final(self).store.records().drop_last() == old(self).store.records()
                &&& {
                    let d = final(self).store.records().last();
                    &&& d.id@ == s.id@
                    &&& opens_to(old(self).encryption.key(), d.redirect_url@, source.redirect_url@)
                    &&& sealable(source.redirect_url@)
                    &&& verify_outcome(d.password@, encode_utf8(source.password@)) is Ok
                    &&& d.auth_type.spec_id() == source.auth_type
                    &&& d.comment@ == source.comment@
                    &&& d.expiration_at == source.expiration_at as i64
                }
            },
    {
        if !(source.auth_type == 1 || source.auth_type == 2) {
            return Err(WrapError::InvalidAuthType);
        }
        let id = match generate_id() {
            Some(id) => id,
            None => {
                return Err(WrapError::IdUnavailable);
            },
        };
        self.register_wrap_at(source, id, now_seconds())
    }

    /// Reads a wrap for display, with its URL decrypted; no credential is
    /// asked for. `Ok(None)` when no wrap has the identifier.
    pub fn get_wrap(&self, id: &String) -> (r: Result<Option<WrapView>, WrapError>)
        ensures
            !self.store.has(id@) ==> r == Ok::<Option<WrapView>, WrapError>(None),
            self.store.wf(),
            self.store.has(id@) ==> !(r matches Ok(None)),
            forall|d: WrapDocument|
                #![trigger self.store.records().contains(d)]
                self.store.records().contains(d) && d.id@ == id@ ==> (r matches Ok(Some(v)) ==> shows(
                    d,
                    v.redirect_url@,
                    v,
                )),
            r matches Ok(Some(v)) ==> exists|d: WrapDocument|
                #![trigger self.store.records().contains(d)]
                self.store.records().contains(d) && d.id@ == id@ && shows(d, v.redirect_url@, v)
                    && opens_to(self.encryption.key(), d.redirect_url@, v.redirect_url@),
            self.store.has(id@) ==> forall|d: WrapDocument|
                #![trigger self.store.records().contains(d)]
                self.store.records().contains(d) && d.id@ == id@ ==> opened(
                    self.encryption.key(),
                    d,
                    r,
                    r.unwrap().unwrap().redirect_url@,
                ),
    {
        let found = self.store.get(id);
        proof {
            use_type_invariant(&self.store);
            if let Some(x) = found {
                assert forall|d: WrapDocument|
                    #![trigger self.store.records().contains(d)]
                    self.store.records().contains(d) && d.id@ == id@ implies d == *x by {
                    self.store.lemma_id_picks_one(d, *x);
                }
            }
        }
        match found {
            None => Ok(None),
            Some(d) => match WrapView::open_document(d, &self.encryption) {
                Ok(v) => Ok(Some(v)),
                Err(e) => Err(e),
            },
        }
    }

    /// Resolves a wrap with a credential at time `now`.
    pub fn verify_wrap_at(&self, id: &String, password: &str, now: i64) -> (r: Result<
        WrapView,
        WrapError,
    >)
        ensures
            !self.store.has(id@) ==> r == Err::<WrapView, WrapError>(WrapError::NotFound),
            forall|d: WrapDocument|
                #![trigger self.store.records().contains(d)]
                self.store.records().contains(d) && d.id@ == id@ ==> match verify_outcome(
                    d.password@,
                    password.spec_bytes(),
                ) {
                    Err(e) => r == Err::<WrapView, WrapError>(WrapError::Credential(e)),
                    Ok(_) => if now > d.expiration_at {
                        r == Err::<WrapView, WrapError>(WrapError::Expired)
                    } else {
                        &&& opened(self.encryption.key(), d, r, r.unwrap().redirect_url@)
                        &&& r matches Ok(v) ==> shows(d, v.redirect_url@, v)
                    },
                },
    {
        let found = self.store.get(id);
        proof {
            use_type_invariant(&self.store);
            if let Some(x) = found {
                assert forall|d: WrapDocument|
                    #![trigger self.store.records().contains(d)]
                    self.store.records().contains(d) && d.id@ == id@ implies d == *x by {
                    self.store.lemma_id_picks_one(d, *x);
                }
            }
        }
        resolve_at(found, password, &self.encryption, now)
    }

    /// Resolves a wrap with a credential at the current time.
    pub fn verify_wrap(&self, id: &String, password: &str) -> (r: Result<WrapView, WrapError>)
        ensures
            !self.store.has(id@) ==> r == Err::<WrapView, WrapError>(WrapError::NotFound),
            forall|d: WrapDocument|
                #![trigger self.store.records().contains(d)]
                self.store.records().contains(d) && d.id@ == id@ ==> match verify_outcome(
                    d.password@,
                    password.spec_bytes(),
                ) {
                    Err(e) => r == Err::<WrapView, WrapError>(WrapError::Credential(e)),
                    Ok(_) => {
                        ||| r == Err::<WrapView, WrapError>(WrapError::Expired)
                        ||| (r matches Ok(v) && shows(d, v.redirect_url@, v))
                        ||| (r matches Err(WrapError::Cipher(_)))
                    },
                },
    {
        self.verify_wrap_at(id, password, now_seconds())
    }
}

} // verus!
