use url_wrap::auth_type::WrapAuthType;
use url_wrap::config::{
    init_encryption_parameter, init_hashing_parameter, invalid_msg, parse_u32, undefined_msg,
    ConfigError, Setting,
};
use url_wrap::response::{
    create_status, invalid_request, read_status, resolve_failure, JsonAuthorizeWrap,
    JsonAuthorizedWrapView, JsonCreateWrap, JsonErrorResponse, JsonWrapView,
};
use url_wrap::credential::CredentialError;
use url_wrap::usecase::WrapSummary;
use url_wrap::wrap::{WrapError, WrapView};

fn s(x: &str) -> Option<String> {
    Some(x.to_string())
}

#[test]
fn parse_decimal_numbers() {
    assert_eq!(parse_u32("0"), Some(0));
    assert_eq!(parse_u32("19"), Some(19));
    assert_eq!(parse_u32("4294967295"), Some(u32::MAX));
    assert_eq!(parse_u32("4294967296"), None);
    assert_eq!(parse_u32("99999999999999999999"), None);
    assert_eq!(parse_u32(""), None);
    assert_eq!(parse_u32("12a"), None);
    assert_eq!(parse_u32("-1"), None);
    assert_eq!(parse_u32(" 1"), None);
    assert_eq!(parse_u32("+19"), Some(19));
    assert_eq!(parse_u32("+0"), Some(0));
    assert_eq!(parse_u32("007"), Some(7));
    assert_eq!(parse_u32("+"), None);
    assert_eq!(parse_u32("++1"), None);
    assert_eq!(parse_u32("+-1"), None);
}

#[test]
fn hashing_settings_are_read_in_order() {
    let p = init_hashing_parameter(s("argon2id"), s("19"), s("2"), s("19456"), s("1")).unwrap();
    assert_eq!(p.variant, "argon2id");
    assert_eq!((p.version, p.time_cost, p.memory_cost, p.parallelism_cost), (19, 2, 19456, 1));
    let e = init_hashing_parameter(None, None, s("x"), None, None).err();
    assert_eq!(e, Some(ConfigError::Undefined(Setting::Variant)));
    let e = init_hashing_parameter(s("argon2id"), s("19"), s("x"), None, None).err();
    assert_eq!(e, Some(ConfigError::Invalid(Setting::TimeCost)));
    let e = init_hashing_parameter(s("argon2id"), s("19"), s("2"), s("8"), None).err();
    assert_eq!(e, Some(ConfigError::Undefined(Setting::ParallelismCost)));
    let p = init_hashing_parameter(s("argon2id"), s("+19"), s("2"), s("8"), s("16777215")).unwrap();
    assert_eq!((p.version, p.parallelism_cost), (19, 16_777_215));
    let p = init_hashing_parameter(s("argon2id"), s("19"), s("2"), s("8"), s("536870912")).unwrap();
    assert_eq!(p.parallelism_cost, 536_870_912);
    assert_eq!(
        url_wrap::credential::hash_password(&p, "x"),
        Err(url_wrap::credential::CredentialError::Crypto)
    );
    let e = init_hashing_parameter(s("argon2id"), s("19"), s("2"), s("8"), s("4294967296")).err();
    assert_eq!(e, Some(ConfigError::Invalid(Setting::ParallelismCost)));
}

#[test]
fn encryption_key_setting() {
    assert!(init_encryption_parameter(s("0123456789abcdef0123456789abcdef")).is_ok());
    assert_eq!(init_encryption_parameter(None).err(), Some(ConfigError::Undefined(Setting::Key)));
    assert_eq!(init_encryption_parameter(s("short")).err(), Some(ConfigError::Invalid(Setting::Key)));
}

#[test]
fn setting_messages() {
    assert_eq!(undefined_msg("DATABASE_URL"), "DATABASE_URL is undefined.");
    assert_eq!(invalid_msg("X"), "X is invalid value.");
    assert_eq!(
        ConfigError::Undefined(Setting::MemoryCost).message(),
        "ARGON2_PHC_MEMORY_COST is undefined."
    );
    assert_eq!(ConfigError::Invalid(Setting::Version).message(), "ARGON2_PHC_VERSION is invalid value.");
    assert_eq!(Setting::Key.name(), "AES_GCM_KEY");
}

#[test]
fn auth_type_names() {
    assert_eq!(WrapAuthType::Text.name(), "Text");
    assert_eq!(WrapAuthType::FourDigit.name(), "FourDigit");
    assert_eq!(WrapAuthType::from_name("Text"), Some(WrapAuthType::Text));
    assert_eq!(WrapAuthType::from_name("FourDigit"), Some(WrapAuthType::FourDigit));
    assert_eq!(WrapAuthType::from_name("text"), None);
    assert_eq!(WrapAuthType::from_name(""), None);
}

fn create_body() -> JsonCreateWrap {
    JsonCreateWrap {
        redirect_url: s("https://example.com/secret"),
        password: s("hunter2"),
        auth_type: 1,
        comment: s("demo"),
        expiration_at: 1_700_000_000,
    }
}

#[test]
fn valid_create_request() {
    let body = create_body();
    assert!(body.validate().is_empty());
    let cw = body.into_create_wrap();
    assert_eq!(cw.redirect_url, "https://example.com/secret");
    assert_eq!(cw.password, "hunter2");
    assert_eq!(cw.auth_type, 1);
    assert_eq!(cw.comment, "demo");
    assert_eq!(cw.expiration_at, 1_700_000_000);
}

#[test]
fn invalid_create_request_messages() {
    let body = JsonCreateWrap {
        redirect_url: None,
        password: s(""),
        auth_type: 3,
        comment: None,
        expiration_at: -1,
    };
    assert_eq!(
        body.validate(),
        vec![
            "`redirectUrl` is null.",
            "`password` is empty.",
            "`authType` is 1 or 2.",
            "`comment` is null.",
            "`expirationAt` is minimum 0 and maximum 4294967295.",
        ]
    );
    let body = JsonCreateWrap { password: None, expiration_at: 4_294_967_296, ..create_body() };
    assert_eq!(
        body.validate(),
        vec!["`password` is null.", "`expirationAt` is minimum 0 and maximum 4294967295."]
    );
}

#[test]
fn redirect_url_must_parse() {
    for bad in ["not a url", "http", "example.com/secret", ""] {
        let body = JsonCreateWrap { redirect_url: s(bad), ..create_body() };
        assert_eq!(body.validate(), vec!["`redirectUrl` is invalid URL format."]);
    }
    for good in ["https://example.com/secret", "ftp://localhost:80", "http://localhost:80"] {
        let body = JsonCreateWrap { redirect_url: s(good), ..create_body() };
        assert!(body.validate().is_empty());
    }
}

#[test]
fn authorize_request() {
    assert_eq!(JsonAuthorizeWrap { password: None }.validate(), vec!["`password` is null."]);
    assert_eq!(JsonAuthorizeWrap { password: s("") }.validate(), vec!["`password` is empty."]);
    let ok = JsonAuthorizeWrap { password: s("hunter2") };
    assert!(ok.validate().is_empty());
    assert_eq!(ok.into_authorize_wrap().password, "hunter2");
}

#[test]
fn error_bodies() {
    let e = JsonErrorResponse::new("c".to_string(), vec!["m".to_string()]);
    assert_eq!(e.error_code, "c");
    assert_eq!(e.errors, vec!["m"]);
    let e = invalid_request(vec!["x".to_string()]);
    assert_eq!(e.error_code, "invalid_request");
    let (status, body) = resolve_failure(WrapError::Expired);
    assert_eq!(status, 403);
    assert_eq!(body.error_code, "expired");
    assert_eq!(body.errors, vec!["Expiration date has expired."]);
    for e in [WrapError::NotFound, WrapError::Credential(CredentialError::Mismatch)] {
        let (status, body) = resolve_failure(e);
        assert_eq!(status, 401);
        assert_eq!(body.error_code, "authentication_failed");
        assert_eq!(body.errors, vec!["Authentication failed."]);
    }
}

fn view() -> WrapView {
    WrapView {
        id: "w".to_string(),
        redirect_url: "https://example.com/secret".to_string(),
        auth_type: 2,
        comment: "demo".to_string(),
        expiration_at: 1_431_648_000,
    }
}

#[test]
fn json_views_format_the_deadline() {
    let j = JsonWrapView::from_view(view()).unwrap();
    assert_eq!(j.id, "w");
    assert_eq!(j.auth_type, 2);
    assert_eq!(j.expiration_at, "2015-05-15T00:00:00+00:00");
    let a = JsonAuthorizedWrapView::from_view(view()).unwrap();
    assert_eq!(a.redirect_url, "https://example.com/secret");
    assert_eq!(a.expiration_at, "2015-05-15T00:00:00+00:00");
    let summary = WrapSummary { id: "w".to_string(), auth_type: 1, comment: String::new(), expiration_at: 0 };
    assert_eq!(JsonWrapView::from_summary(summary).unwrap().expiration_at, "1970-01-01T00:00:00+00:00");
    let far = WrapView { expiration_at: i64::MAX, ..view() };
    assert!(JsonWrapView::from_view(far).is_none());
}

#[test]
fn statuses() {
    let summary = WrapSummary { id: "w".to_string(), auth_type: 1, comment: String::new(), expiration_at: 0 };
    assert_eq!(create_status(&Ok(summary)), 201);
    assert_eq!(create_status(&Err(WrapError::InvalidAuthType)), 500);
    assert_eq!(read_status(&Ok(Some(view()))), 200);
    assert_eq!(read_status(&Ok(None)), 404);
    assert_eq!(read_status(&Err(WrapError::NotFound)), 500);
}
