use base64::URL_SAFE_NO_PAD;
use rust_nso::json::FieldValue;
use rust_nso::login;
use sha2::{Digest, Sha256};

fn obj(pairs: Vec<(&str, FieldValue)>) -> FieldValue {
    FieldValue::Obj(pairs.into_iter().map(|(k, v)| (String::from(k), v)).collect())
}

fn s(text: &str) -> FieldValue {
    FieldValue::Str(String::from(text))
}

#[test]
fn challenge_in_login_url_matches_verifier() {
    let uv = login::get_login_url_and_verifier();
    assert_eq!(uv.verifier.len(), 43);
    let marker = "&session_token_code_challenge=";
    let start = uv.url.find(marker).expect("challenge missing") + marker.len();
    let end = uv.url[start..].find('&').expect("challenge unterminated") + start;
    let challenge = &uv.url[start..end];
    let expected =
        base64::encode_config(Sha256::digest(uv.verifier.as_bytes()), URL_SAFE_NO_PAD);
    assert_eq!(challenge, expected);
}

#[test]
fn login_url_has_fixed_template() {
    let uv = login::get_login_url_and_verifier();
    assert!(uv.url.starts_with("https://accounts.nintendo.com/connect/1.0.0/authorize?state="));
    assert!(uv.url.contains("&redirect_uri=npf71b963c1b7b6d119://auth"));
    assert!(uv.url.contains("&client_id=71b963c1b7b6d119"));
    assert!(uv.url.contains("&scope=openid+user+user.birthday+user.mii+user.screenName"));
    assert!(uv.url.contains("&response_type=session_token_code"));
    assert!(uv.url.ends_with("&session_token_code_challenge_method=S256&theme=login_form"));
}

#[test]
fn two_generated_verifiers_differ() {
    let a = login::get_login_url_and_verifier();
    let b = login::get_login_url_and_verifier();
    assert_ne!(a.verifier, b.verifier);
}

#[test]
fn select_url_parses_code() {
    let url = "npf71b963c1b7b6d119://auth#session_token_code=XYZ";
    assert_eq!(login::get_session_token_code_from_select_url(url), Some("XYZ"));
}

#[test]
fn select_url_parses_code_among_other_pairs() {
    let url = "npf71b963c1b7b6d119://auth#state=abc&session_token_code=eyJx.y_z-1&other=2";
    assert_eq!(login::get_session_token_code_from_select_url(url), Some("eyJx.y_z-1"));
}

#[test]
fn select_url_without_prefix_is_rejected() {
    assert_eq!(login::get_session_token_code_from_select_url(""), None);
    assert_eq!(login::get_session_token_code_from_select_url("https://example/auth#x=1"), None);
    assert_eq!(
        login::get_session_token_code_from_select_url("npf71b963c1b7b6d119://auth"),
        None
    );
}

#[test]
fn select_url_without_code_key_is_rejected() {
    let url = "npf71b963c1b7b6d119://auth#state=abc&other=def";
    assert_eq!(login::get_session_token_code_from_select_url(url), None);
}

#[test]
fn select_url_parse_is_repeatable() {
    let url = "npf71b963c1b7b6d119://auth#session_token_code=XYZ";
    let first = login::get_session_token_code_from_select_url(url);
    let second = login::get_session_token_code_from_select_url(url);
    assert_eq!(first, second);
}

#[test]
fn select_url_empty_code_is_kept() {
    let url = "npf71b963c1b7b6d119://auth#session_token_code=";
    assert_eq!(login::get_session_token_code_from_select_url(url), Some(""));
}

#[test]
fn session_token_request_shape() {
    let r = login::session_token_request("the code", "ver_1-2.3");
    assert!(matches!(r.method, rust_nso::request::Method::Post));
    assert_eq!(r.url, "https://accounts.nintendo.com/connect/1.0.0/api/session_token");
    assert_eq!(
        String::from_utf8(r.body).unwrap(),
        "client_id=71b963c1b7b6d119&session_token_code=the+code&session_token_code_verifier=ver_1-2.3"
    );
    let names: Vec<&str> = r.headers.iter().map(|h| h.0.as_str()).collect();
    assert_eq!(
        names,
        vec![
            "user-agent",
            "accept-language",
            "accept",
            "host",
            "connection",
            "accept-encoding",
            "content-type"
        ]
    );
    assert_eq!(r.headers[0].1, "OnlineLounge/2.3.1 NASDKAPI Android");
    assert_eq!(r.headers[6].1, "application/x-www-form-urlencoded");
}

#[test]
fn form_encoding_percent_escapes() {
    let r = login::session_token_request("a/b?c", "x");
    let body = String::from_utf8(r.body).unwrap();
    assert!(body.contains("session_token_code=a%2Fb%3Fc&"));
}

#[test]
fn extract_session_token_present_and_missing() {
    let ok = obj(vec![("session_token", s("tok")), ("code", s("ignored"))]);
    assert_eq!(rust_nso::login::extract_session_token(&ok).unwrap(), "tok");
    let missing = obj(vec![("code", s("x"))]);
    assert_eq!(
        login::extract_session_token(&missing).unwrap_err(),
        rust_nso::AuthError::RemoteRejection
    );
}

#[test]
fn access_token_request_shape() {
    let r = login::access_token_request("sess");
    assert_eq!(r.url, "https://accounts.nintendo.com/connect/1.0.0/api/token");
    assert_eq!(
        String::from_utf8(r.body).unwrap(),
        "{\"client_id\":\"71b963c1b7b6d119\",\"session_token\":\"sess\",\"grant_type\":\"urn:ietf:params:oauth:grant-type:jwt-bearer-session-token\"}"
    );
    assert_eq!(r.headers.last().unwrap().1, "application/json");
}

#[test]
fn json_escaping_matches_standard_encoder() {
    let tricky = "a\"b\\c\nd\u{1}e";
    let r = login::access_token_request(tricky);
    let body = String::from_utf8(r.body).unwrap();
    let expected_quoted = serde_json::to_string(tricky).unwrap();
    assert!(
        body.contains(&format!("\"session_token\":{expected_quoted},")),
        "body was {body}"
    );
}

#[test]
fn tokens_from_fields_complete_response() {
    let scope = FieldValue::List(vec![
        s("openid"),
        s("user"),
        s("user.birthday"),
        s("user.mii"),
        s("user.screenName"),
    ]);
    let resp = obj(vec![
        ("scope", scope),
        ("token_type", s("Bearer")),
        ("expires_in", FieldValue::UInt(900)),
        ("id_token", s("idt")),
        ("access_token", s("acc")),
        ("extra", s("dropped")),
    ]);
    let t = login::tokens_from_fields(&resp).unwrap();
    assert_eq!(t.access_token, "acc");
    assert_eq!(t.id_token, "idt");
    assert_eq!(t.expires_in, 900);
    assert_eq!(t.token_type, "Bearer");
    assert_eq!(t.scope, ["openid", "user", "user.birthday", "user.mii", "user.screenName"]);
}

#[test]
fn tokens_from_fields_rejects_missing_or_short_scope() {
    let short_scope = FieldValue::List(vec![s("openid")]);
    let resp = obj(vec![
        ("access_token", s("acc")),
        ("id_token", s("idt")),
        ("expires_in", FieldValue::UInt(900)),
        ("token_type", s("Bearer")),
        ("scope", short_scope),
    ]);
    assert!(login::tokens_from_fields(&resp).is_err());
    let no_access = obj(vec![("id_token", s("idt"))]);
    assert!(login::tokens_from_fields(&no_access).is_err());
    let wrong_type = obj(vec![
        ("access_token", FieldValue::UInt(5)),
        ("id_token", s("idt")),
        ("expires_in", FieldValue::UInt(900)),
        ("token_type", s("Bearer")),
        ("scope", FieldValue::List(vec![])),
    ]);
    assert!(login::tokens_from_fields(&wrong_type).is_err());
}

#[test]
fn user_info_discards_unrecognized_fields() {
    let resp = obj(vec![
        ("country", s("GB")),
        ("birthday", s("1990-01-01")),
        ("language", s("en-GB")),
        ("screenName", s("someone")),
        ("nickname", s("private")),
        ("emailVerified", FieldValue::Bool(true)),
    ]);
    let u = login::user_info_from_fields(&resp).unwrap();
    assert_eq!(u.country, "GB");
    assert_eq!(u.birthday, "1990-01-01");
    assert_eq!(u.language, "en-GB");
}

#[test]
fn user_info_missing_field_is_rejected() {
    let resp = obj(vec![("country", s("GB")), ("language", s("en-GB"))]);
    assert!(login::user_info_from_fields(&resp).is_err());
}

#[test]
fn user_info_request_carries_bearer() {
    let r = login::user_info_request("acc-token");
    assert_eq!(r.url, "https://api.accounts.nintendo.com/2.0.0/users/me");
    assert!(matches!(r.method, rust_nso::request::Method::Get));
    assert!(r.body.is_empty());
    assert!(r.headers.contains(&(String::from("authorization"), String::from("Bearer acc-token"))));
}

#[test]
fn f_token_round_trip() {
    let body = login::FTokenApiBody::step_1("abc");
    let r = login::f_token_request(&body);
    assert_eq!(r.url, "https://api.imink.app/f");
    assert_eq!(
        String::from_utf8(r.body).unwrap(),
        "{\"hash_method\":\"1\",\"token\":\"abc\"}"
    );
    let resp = obj(vec![
        ("f", s("fval")),
        ("timestamp", FieldValue::UInt(1234567890)),
        ("request_id", s("rid")),
    ]);
    let token = login::nso_f_token_from_fields(&resp).unwrap();
    assert_eq!(token.f, "fval");
    assert_eq!(token.timestamp, 1234567890);
    assert_eq!(token.request_id, "rid");
}

#[test]
fn f_token_step_2_uses_hash_method_two() {
    let body = login::FTokenApiBody::step_2("lt");
    let r = login::f_token_request(&body);
    assert_eq!(
        String::from_utf8(r.body).unwrap(),
        "{\"hash_method\":\"2\",\"token\":\"lt\"}"
    );
    assert_eq!(r.headers[0], (String::from("user-agent"), String::from("rust-nso/0.1.0")));
}

#[test]
fn f_token_timestamp_bounds() {
    let fits = obj(vec![
        ("f", s("fval")),
        ("timestamp", FieldValue::UInt(i64::MAX as u64)),
        ("request_id", s("rid")),
    ]);
    assert_eq!(login::nso_f_token_from_fields(&fits).unwrap().timestamp, i64::MAX);
    let negative = obj(vec![
        ("f", s("fval")),
        ("timestamp", FieldValue::Int(-7)),
        ("request_id", s("rid")),
    ]);
    assert_eq!(login::nso_f_token_from_fields(&negative).unwrap().timestamp, -7);
    let too_large = obj(vec![
        ("f", s("fval")),
        ("timestamp", FieldValue::UInt(u64::MAX)),
        ("request_id", s("rid")),
    ]);
    assert!(login::nso_f_token_from_fields(&too_large).is_err());
}

#[test]
fn f_token_missing_field_is_rejected() {
    let resp = obj(vec![("f", s("fval")), ("request_id", s("rid"))]);
    assert!(login::nso_f_token_from_fields(&resp).is_err());
    assert!(login::app_f_token_from_fields(&resp).is_err());
}

#[test]
fn login_token_request_body_shape() {
    let f1 = login::NsoFToken {
        f: String::from("F1"),
        timestamp: -5,
        request_id: String::from("R1"),
    };
    let info = login::UserInfo {
        country: String::from("US"),
        birthday: String::from("2000-02-02"),
        language: String::from("en-US"),
    };
    let r = login::login_token_request(&f1, "IDT", &info);
    assert_eq!(r.url, "https://api-lp1.znc.srv.nintendo.net/v3/Account/Login");
    assert_eq!(
        String::from_utf8(r.body).unwrap(),
        "{\"parameter\":{\"f\":\"F1\",\"naIdToken\":\"IDT\",\"timestamp\":-5,\"requestId\":\"R1\",\"naCountry\":\"US\",\"naBirthday\":\"2000-02-02\",\"language\":\"en-US\"}}"
    );
    assert!(r.headers.contains(&(String::from("authorization"), String::from("Bearer"))));
    assert!(r.headers.contains(&(String::from("X-ProductVersion"), String::from("2.3.1"))));
}

#[test]
fn extract_login_token_nested_path() {
    let resp = obj(vec![
        ("status", FieldValue::UInt(0)),
        (
            "result",
            obj(vec![
                (
                    "webApiServerCredential",
                    obj(vec![("accessToken", s("LOGIN")), ("expiresIn", FieldValue::UInt(7200))]),
                ),
                ("user", obj(vec![("name", s("ignored"))])),
            ]),
        ),
    ]);
    assert_eq!(login::extract_login_token(&resp).unwrap(), "LOGIN");
    let no_cred = obj(vec![("result", obj(vec![("user", s("x"))]))]);
    assert!(login::extract_login_token(&no_cred).is_err());
}
