//! The shapes a transport exchanges with callers: request bodies and their
//! validation, response bodies, and the status each outcome maps to.
use vstd::prelude::*;
use vstd::string::*;

use crate::usecase::WrapSummary;
use crate::wrap::{AuthorizeWrap, CreateWrap, WrapError, WrapView};

verus! {

/// The instant `secs` seconds after the Unix epoch, in UTC, as RFC 3339 text.
pub uninterp spec fn rfc3339_of(secs: i64) -> Seq<char>;

/// Relies on chrono's `DateTime::<Utc>::from_timestamp(secs, 0)`, which is
/// `None` only outside about 262,000 years around the epoch, and `to_rfc3339`.
#[verifier::external_body]
fn rfc3339(secs: i64) -> (r: Option<String>)
    ensures
        r matches Some(s) ==> s@ == rfc3339_of(secs),
        0 <= secs <= u32::MAX ==> r is Some,
{
    chrono::DateTime::<chrono::Utc>::from_timestamp(secs, 0).map(|t| t.to_rfc3339())
}

/// Whether the text parses as an absolute URL.
pub uninterp spec fn url_valid(s: Seq<char>) -> bool;

/// Relies on validator's `validate_url`, which is `url::Url::parse` succeeding.
#[verifier::external_body]
fn is_valid_url(s: &str) -> (r: bool)
    ensures
        r == url_valid(s@),
{
    validator::validate_url(s)
}

/// An error body: a machine-readable code and human-readable messages.
pub struct JsonErrorResponse {
    pub error_code: String,
    pub errors: Vec<String>,
}

impl JsonErrorResponse {
    pub fn new(error_code: String, errors: Vec<String>) -> (r: JsonErrorResponse)
        ensures
            r.error_code@ == error_code@,
            r.errors@ == errors@,
    {
        JsonErrorResponse { error_code, errors }
    }
}

/// What the creator or a reader of a wrap is shown.
pub struct JsonWrapView {
    pub id: String,
    pub auth_type: u32,
    pub comment: String,
    pub expiration_at: String,
}

impl JsonWrapView {
    pub fn from_summary(s: WrapSummary) -> (r: Option<JsonWrapView>)
        ensures
            0 <= s.expiration_at <= u32::MAX ==> r is Some,
            r matches Some(j) ==> {
                &&& j.id@ == s.id@
                &&& j.auth_type == s.auth_type
                &&& j.comment@ == s.comment@
                &&& j.expiration_at@ == rfc3339_of(s.expiration_at)
            },
    {
        match rfc3339(s.expiration_at) {
            Some(expiration_at) => Some(
                JsonWrapView { id: s.id, auth_type: s.auth_type, comment: s.comment, expiration_at },
            ),
            None => None,
        }
    }

    /// The view without its URL.
    pub fn from_view(v: WrapView) -> (r: Option<JsonWrapView>)
        ensures
            0 <= v.expiration_at <= u32::MAX ==> r is Some,
            r matches Some(j) ==> {
                &&& j.id@ == v.id@
                &&& j.auth_type == v.auth_type
                &&& j.comment@ == v.comment@
                &&& j.expiration_at@ == rfc3339_of(v.expiration_at)
            },
    {
        match rfc3339(v.expiration_at) {
            Some(expiration_at) => Some(
                JsonWrapView { id: v.id, auth_type: v.auth_type, comment: v.comment, expiration_at },
            ),
            None => None,
        }
    }
}

/// What a caller who resolved a wrap is shown.
pub struct JsonAuthorizedWrapView {
    pub id: String,
    pub redirect_url: String,
    pub expiration_at: String,
}

impl JsonAuthorizedWrapView {
    pub fn from_view(v: WrapView) -> (r: Option<JsonAuthorizedWrapView>)
        ensures
            0 <= v.expiration_at <= u32::MAX ==> r is Some,
            r matches Some(j) ==> {
                &&& j.id@ == v.id@
                &&& j.redirect_url@ == v.redirect_url@
                &&& j.expiration_at@ == rfc3339_of(v.expiration_at)
            },
    {
        match rfc3339(v.expiration_at) {
            Some(expiration_at) => Some(
                JsonAuthorizedWrapView { id: v.id, redirect_url: v.redirect_url, expiration_at },
            ),
            None => None,
        }
    }
}

/// A creation request body as it arrives; absent fields are `None`.
pub struct JsonCreateWrap {
    pub redirect_url: Option<String>,
    pub password: Option<String>,
    pub auth_type: i64,
    pub comment: Option<String>,
    pub expiration_at: i64,
}

pub open spec fn when(cond: bool, message: Seq<char>) -> Seq<Seq<char>> {
    if cond { seq![message] } else { seq![] }
}

/// The messages for a creation request, one per broken rule, in field order.
pub open spec fn create_errors(j: JsonCreateWrap) -> Seq<Seq<char>> {
    when(j.redirect_url is None, "`redirectUrl` is null."@)
        + when(
        j.redirect_url matches Some(u) && !url_valid(u@),
        "`redirectUrl` is invalid URL format."@,
    )
        + when(j.password is None, "`password` is null."@)
        + when(j.password matches Some(p) && p@.len() == 0, "`password` is empty."@)
        + when(!(1 <= j.auth_type <= 2), "`authType` is 1 or 2."@)
        + when(j.comment is None, "`comment` is null."@)
        + when(
        !(0 <= j.expiration_at <= u32::MAX),
        "`expirationAt` is minimum 0 and maximum 4294967295."@,
    )
}

/// The messages for a resolution request.
pub open spec fn authorize_errors(j: JsonAuthorizeWrap) -> Seq<Seq<char>> {
    when(j.password is None, "`password` is null."@)
        + when(j.password matches Some(p) && p@.len() == 0, "`password` is empty."@)
}

pub open spec fn views(v: Seq<String>) -> Seq<Seq<char>> {
    v.map_values(|s: String| s@)
}

fn push_when(messages: &mut Vec<String>, cond: bool, message: &str)
    ensures
        views(final(messages)@) == views(old(messages)@) + when(cond, message@),
{
    if cond {
        messages.push(message.to_owned());
    }
    assert(views(final(messages)@) =~= views(old(messages)@) + when(cond, message@));
}

impl JsonCreateWrap {
    /// The rules a creation request must meet.
    pub fn validate(&self) -> (r: Vec<String>)
        ensures
            views(r@) == create_errors(*self),
    {
        let mut m: Vec<String> = Vec::new();
        assert(views(m@) =~= Seq::<Seq<char>>::empty());
        push_when(&mut m, self.redirect_url.is_none(), "`redirectUrl` is null.");
        let bad_url = match &self.redirect_url {
            Some(u) => !is_valid_url(u.as_str()),
            None => false,
        };
        push_when(&mut m, bad_url, "`redirectUrl` is invalid URL format.");
        push_when(&mut m, self.password.is_none(), "`password` is null.");
        let empty = match &self.password {
            Some(p) => p.as_str().is_empty(),
            None => false,
        };
        push_when(&mut m, empty, "`password` is empty.");
        push_when(&mut m, !(1 <= self.auth_type && self.auth_type <= 2), "`authType` is 1 or 2.");
        push_when(&mut m, self.comment.is_none(), "`comment` is null.");
        push_when(
            &mut m,
            !(0 <= self.expiration_at && self.expiration_at <= u32::MAX as i64),
            "`expirationAt` is minimum 0 and maximum 4294967295.",
        );
        assert(views(m@) =~= create_errors(*self));
        m
    }

    /// The request for the lifecycle; it must have passed validation.
    pub fn into_create_wrap(self) -> (r: CreateWrap)
        requires
            create_errors(self).len() == 0,
        ensures
            self.redirect_url matches Some(u) && r.redirect_url@ == u@,
            self.password matches Some(p) && r.password@ == p@,
            r.auth_type == self.auth_type,
            self.comment matches Some(c) && r.comment@ == c@,
            r.expiration_at == self.expiration_at,
    {
        match (self.redirect_url, self.password, self.comment) {
            (Some(redirect_url), Some(password), Some(comment)) => CreateWrap::new(
                redirect_url,
                password,
                self.auth_type as u32,
                comment,
                self.expiration_at as u32,
            ),
            _ => {
                assert(false);
                CreateWrap::new(String::new(), String::new(), 0, String::new(), 0)
            },
        }
    }
}

/// A resolution request body as it arrives.
pub struct JsonAuthorizeWrap {
    pub password: Option<String>,
}

impl JsonAuthorizeWrap {
    pub fn validate(&self) -> (r: Vec<String>)
        ensures
            views(r@) == authorize_errors(*self),
    {
        let mut m: Vec<String> = Vec::new();
        assert(views(m@) =~= Seq::<Seq<char>>::empty());
        push_when(&mut m, self.password.is_none(), "`password` is null.");
        let empty = match &self.password {
            Some(p) => p.as_str().is_empty(),
            None => false,
        };
        push_when(&mut m, empty, "`password` is empty.");
        assert(views(m@) =~= authorize_errors(*self));
        m
    }

    pub fn into_authorize_wrap(self) -> (r: AuthorizeWrap)
        requires
            authorize_errors(self).len() == 0,
        ensures
            self.password matches Some(p) && r.password@ == p@,
    {
        match self.password {
            Some(password) => AuthorizeWrap { password },
            None => {
                assert(false);
                AuthorizeWrap { password: String::new() }
            },
        }
    }
}

/// The body for a request that broke the rules.
pub fn invalid_request(messages: Vec<String>) -> (r: JsonErrorResponse)
    ensures
        r.error_code@ == "invalid_request"@,
        r.errors@ == messages@,
{
    JsonErrorResponse::new("invalid_request".to_owned(), messages)
}

/// The status and body for a resolution that failed: a passed deadline is
/// forbidden; anything else, a missing wrap included, is an authentication
/// failure, so that guessing credentials does not reveal which ids exist.
pub fn resolve_failure(e: WrapError) -> (r: (u16, JsonErrorResponse))
    ensures
        e == WrapError::Expired ==> {
            &&& r.0 == 403
            &&& r.1.error_code@ == "expired"@
            &&& views(r.1.errors@) == seq!["Expiration date has expired."@]
        },
        e != WrapError::Expired ==> {
            &&& r.0 == 401
            &&& r.1.error_code@ == "authentication_failed"@
            &&& views(r.1.errors@) == seq!["Authentication failed."@]
        },
{
    let mut errors: Vec<String> = Vec::new();
    if e == WrapError::Expired {
        errors.push("Expiration date has expired.".to_owned());
        assert(views(errors@) =~= seq!["Expiration date has expired."@]);
        (403, JsonErrorResponse::new("expired".to_owned(), errors))
    } else {
        errors.push("Authentication failed.".to_owned());
        assert(views(errors@) =~= seq!["Authentication failed."@]);
        (401, JsonErrorResponse::new("authentication_failed".to_owned(), errors))
    }
}

/// The status for a creation: created, or an internal failure.
pub fn create_status(r: &Result<WrapSummary, WrapError>) -> (s: u16)
    ensures
        r is Ok ==> s == 201,
        r is Err ==> s == 500,
{
    if r.is_ok() { 201 } else { 500 }
}

/// The status for a read: found, not found, or an internal failure.
pub fn read_status(r: &Result<Option<WrapView>, WrapError>) -> (s: u16)
    ensures
        r matches Ok(Some(_)) ==> s == 200,
        r matches Ok(None) ==> s == 404,
        r is Err ==> s == 500,
{
    match r {
        Ok(Some(_)) => 200,
        Ok(None) => 404,
        Err(_) => 500,
    }
}

} // verus!
