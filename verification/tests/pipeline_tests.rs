//! Drives the whole derivation chain against canned responses, the way a
//! mock server would answer each stage, checking every request body on the
//! way and that the final bullet token is the one the canned data carried.

use rust_nso::json::FieldValue;
use rust_nso::{common, login, splatoon2, splatoon3};

fn pipe_obj(pairs: Vec<(&str, FieldValue)>) -> FieldValue {
    FieldValue::Obj(pairs.into_iter().map(|(k, v)| (String::from(k), v)).collect())
}

fn pipe_str(text: &str) -> FieldValue {
    FieldValue::Str(String::from(text))
}

#[test]
fn full_pipeline_from_redirect_to_bullet_token() {
    // The user pastes the redirect URL back; the exchange code comes out.
    let select_url = "npf71b963c1b7b6d119://auth#session_token_code=XYZ";
    let code = login::get_session_token_code_from_select_url(select_url).unwrap();
    assert_eq!(code, "XYZ");

    // Exchange code + verifier -> session token.
    let r = login::session_token_request(code, "VERIFIER");
    assert_eq!(
        String::from_utf8(r.body).unwrap(),
        "client_id=71b963c1b7b6d119&session_token_code=XYZ&session_token_code_verifier=VERIFIER"
    );
    let canned = pipe_obj(vec![("session_token", pipe_str("SESSION")), ("code", pipe_str("XYZ"))]);
    let session_token = login::extract_session_token(&canned).unwrap();

    // Session token -> access and ID tokens.
    let r = login::access_token_request(&session_token);
    assert_eq!(
        String::from_utf8(r.body).unwrap(),
        "{\"client_id\":\"71b963c1b7b6d119\",\"session_token\":\"SESSION\",\"grant_type\":\"urn:ietf:params:oauth:grant-type:jwt-bearer-session-token\"}"
    );
    let canned = pipe_obj(vec![
        ("access_token", pipe_str("ACCESS")),
        ("id_token", pipe_str("ID")),
        ("expires_in", FieldValue::UInt(900)),
        ("token_type", pipe_str("Bearer")),
        (
            "scope",
            FieldValue::List(vec![
                pipe_str("openid"),
                pipe_str("user"),
                pipe_str("user.birthday"),
                pipe_str("user.mii"),
                pipe_str("user.screenName"),
            ]),
        ),
    ]);
    let tokens = login::tokens_from_fields(&canned).unwrap();

    // Access token -> profile, pruned to three fields.
    let r = login::user_info_request(&tokens.access_token);
    assert!(r.headers.contains(&(String::from("authorization"), String::from("Bearer ACCESS"))));
    let canned = pipe_obj(vec![
        ("country", pipe_str("US")),
        ("birthday", pipe_str("2000-01-01")),
        ("language", pipe_str("en-US")),
        ("screenName", pipe_str("extra-to-drop")),
    ]);
    let user_info = login::user_info_from_fields(&canned).unwrap();

    // ID token -> first attestation token.
    let r = login::f_token_request(&login::FTokenApiBody::step_1(&tokens.id_token));
    assert_eq!(
        String::from_utf8(r.body).unwrap(),
        "{\"hash_method\":\"1\",\"token\":\"ID\"}"
    );
    let canned = pipe_obj(vec![
        ("f", pipe_str("F1")),
        ("timestamp", FieldValue::UInt(111)),
        ("request_id", pipe_str("R1")),
    ]);
    let f1 = login::nso_f_token_from_fields(&canned).unwrap();

    // First attestation + profile -> platform login token.
    let r = login::login_token_request(&f1, &tokens.id_token, &user_info);
    assert_eq!(
        String::from_utf8(r.body).unwrap(),
        "{\"parameter\":{\"f\":\"F1\",\"naIdToken\":\"ID\",\"timestamp\":111,\"requestId\":\"R1\",\"naCountry\":\"US\",\"naBirthday\":\"2000-01-01\",\"language\":\"en-US\"}}"
    );
    let canned = pipe_obj(vec![(
        "result",
        pipe_obj(vec![(
            "webApiServerCredential",
            pipe_obj(vec![("accessToken", pipe_str("LOGIN"))]),
        )]),
    )]);
    let login_token = login::extract_login_token(&canned).unwrap();

    // Login token -> second attestation token.
    let r = login::f_token_request(&login::FTokenApiBody::step_2(&login_token));
    assert_eq!(
        String::from_utf8(r.body).unwrap(),
        "{\"hash_method\":\"2\",\"token\":\"LOGIN\"}"
    );
    let canned = pipe_obj(vec![
        ("f", pipe_str("F2")),
        ("timestamp", FieldValue::UInt(222)),
        ("request_id", pipe_str("R2")),
    ]);
    let f2 = login::app_f_token_from_fields(&canned).unwrap();

    // Second attestation + login token -> game web token.
    let r = splatoon3::web_token_request(&f2, &login_token);
    assert_eq!(
        String::from_utf8(r.body).unwrap(),
        "{\"parameter\":{\"id\":4834290508791808,\"f\":\"F2\",\"registrationToken\":\"LOGIN\",\"timestamp\":222,\"requestId\":\"R2\"}}"
    );
    let canned = pipe_obj(vec![(
        "result",
        pipe_obj(vec![("accessToken", pipe_str("WEB"))]),
    )]);
    let web_token = common::extract_game_web_token(&canned).unwrap();

    // Game web token -> bullet token.
    let r = splatoon3::bullet_token_request(&web_token, "4.0.0");
    assert!(r.headers.contains(&(String::from("cookie"), String::from("_dnt=0;_gtoken=WEB"))));
    let canned = pipe_obj(vec![("bulletToken", pipe_str("FINAL_BULLET"))]);
    let bullet = splatoon3::extract_bullet_token(&canned).unwrap();
    assert_eq!(bullet, "FINAL_BULLET");
}

#[test]
fn product_a_pipeline_missing_cookie_is_none_not_error() {
    let f2 = login::AppFToken {
        f: String::from("F2"),
        timestamp: 222,
        request_id: String::from("R2"),
    };
    let r = splatoon2::web_token_request(&f2, "LOGIN");
    assert_eq!(
        String::from_utf8(r.body).unwrap(),
        "{\"parameter\":{\"id\":5741031244955648,\"f\":\"F2\",\"registrationToken\":\"LOGIN\",\"timestamp\":222,\"requestId\":\"R2\"}}"
    );
    // The front door answered, but set no iksm_session cookie.
    let cookies = vec![(String::from("theme"), String::from("dark"))];
    assert_eq!(splatoon2::find_iksm_session(&cookies), None);
}

#[test]
fn number_rendering_edges() {
    let mut out: Vec<u8> = Vec::new();
    rust_nso::encode::push_i64_digits(&mut out, i64::MIN);
    assert_eq!(String::from_utf8(out).unwrap(), "-9223372036854775808");
    let mut out: Vec<u8> = Vec::new();
    rust_nso::encode::push_i64_digits(&mut out, 0);
    assert_eq!(String::from_utf8(out).unwrap(), "0");
    let mut out: Vec<u8> = Vec::new();
    rust_nso::encode::push_u64_digits(&mut out, u64::MAX);
    assert_eq!(String::from_utf8(out).unwrap(), "18446744073709551615");
}

#[test]
fn json_escape_control_bytes_match_standard_encoder() {
    let tricky = "\u{8}\t\n\u{c}\r\u{1f}\u{7f} ok";
    let mut out: Vec<u8> = Vec::new();
    rust_nso::encode::push_json_escaped(&mut out, tricky);
    let quoted = serde_json::to_string(tricky).unwrap();
    assert_eq!(String::from_utf8(out).unwrap(), quoted[1..quoted.len() - 1].to_string());
}

#[test]
fn form_escape_reserved_bytes() {
    let tricky = "a b+c/d~e_f-g.h*i%100";
    let mut out: Vec<u8> = Vec::new();
    rust_nso::encode::push_form_escaped(&mut out, tricky);
    assert_eq!(String::from_utf8(out).unwrap(), "a+b%2Bc%2Fd%7Ee_f-g.h*i%25100");
}

#[test]
fn non_ascii_token_passes_through_utf8() {
    let r = login::access_token_request("käse");
    let body = String::from_utf8(r.body).unwrap();
    assert!(body.contains("\"session_token\":\"käse\""));
}
