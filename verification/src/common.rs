//! The game-scoped web-service token exchange, shared by every supported
//! game and parameterized by a compile-time game identifier, so that a token
//! for one game can never be requested with another game's identifier by a
//! runtime mix-up.

use vstd::prelude::*;
use vstd::string::StringSliceAdditionalSpecFns;
use vstd::string::StringExecFns;

use crate::encode::{dec_i64, dec_u64, json_escape, push_i64_digits, push_json_escaped,
    push_str_bytes, push_u64_digits};
use crate::json::{field_of, str_field, get_field, get_str_field, FieldValue};
use crate::login::AppFToken;
use crate::request::{bearer_value, header_views, make_bearer, push_header, push_header_owned,
    ApiRequest, Method};
use crate::AuthError;

verus! {

/// The headers of the game-token call, with the platform login token as the
/// bearer.
pub open spec fn game_token_headers(login_token: Seq<char>) -> Seq<(Seq<char>, Seq<char>)> {
    seq![
        ("host"@, "api-lp1.znc.srv.nintendo.net"@),
        ("user-agent"@, "com.nintendo.znca/2.3.1, (Android/7.1.2)"@),
        ("accept"@, "application/json"@),
        ("X-ProductVersion"@, "2.3.1"@),
        ("connection"@, "Keep-Alive"@),
        ("authorization"@, bearer_value(login_token)),
        ("X-Platform"@, "Android"@),
        ("accept-encoding"@, "gzip"@),
        ("content-type"@, "application/json"@),
    ]
}

/// The nested JSON body of the game-token call.
pub open spec fn game_token_body(
    id: u64,
    f: Seq<u8>,
    registration_token: Seq<u8>,
    timestamp: int,
    request_id: Seq<u8>,
) -> Seq<u8> {
    "{\"parameter\":{\"id\":".spec_bytes() + dec_u64(id as nat) + ",\"f\":\"".spec_bytes()
        + json_escape(f) + "\",\"registrationToken\":\"".spec_bytes() + json_escape(
        registration_token,
    ) + "\",\"timestamp\":".spec_bytes() + dec_i64(timestamp) + ",\"requestId\":\"".spec_bytes()
        + json_escape(request_id) + "\"}}".spec_bytes()
}

/// Everything of the body that follows the game identifier; equal for every
/// game, whatever the identifier.
pub open spec fn game_token_body_tail(
    f: Seq<u8>,
    registration_token: Seq<u8>,
    timestamp: int,
    request_id: Seq<u8>,
) -> Seq<u8> {
    ",\"f\":\"".spec_bytes() + json_escape(f) + "\",\"registrationToken\":\"".spec_bytes()
        + json_escape(registration_token) + "\",\"timestamp\":".spec_bytes() + dec_i64(timestamp)
        + ",\"requestId\":\"".spec_bytes() + json_escape(request_id) + "\"}}".spec_bytes()
}

/// Two instantiations of the game-token exchange build bodies that share one
/// prefix and one tail and differ only in the rendered game identifier; url
/// and headers do not mention the identifier at all.
pub proof fn lemma_game_token_specialization(
    id1: u64,
    id2: u64,
    f: Seq<u8>,
    registration_token: Seq<u8>,
    timestamp: int,
    request_id: Seq<u8>,
)
    ensures
        game_token_body(id1, f, registration_token, timestamp, request_id)
            == "{\"parameter\":{\"id\":".spec_bytes() + dec_u64(id1 as nat)
            + game_token_body_tail(f, registration_token, timestamp, request_id),
        game_token_body(id2, f, registration_token, timestamp, request_id)
            == "{\"parameter\":{\"id\":".spec_bytes() + dec_u64(id2 as nat)
            + game_token_body_tail(f, registration_token, timestamp, request_id),
{
    assert(game_token_body(id1, f, registration_token, timestamp, request_id)
        =~= "{\"parameter\":{\"id\":".spec_bytes() + dec_u64(id1 as nat) + game_token_body_tail(
        f,
        registration_token,
        timestamp,
        request_id,
    ));
    assert(game_token_body(id2, f, registration_token, timestamp, request_id)
        =~= "{\"parameter\":{\"id\":".spec_bytes() + dec_u64(id2 as nat) + game_token_body_tail(
        f,
        registration_token,
        timestamp,
        request_id,
    ));
}

/// Builds the request that redeems the second attestation token and the
/// platform login token for a web-service token scoped to `GAME_ID`.
pub fn game_web_token_request<const GAME_ID: u64>(f: &AppFToken, login_token: &str) -> (r:
    ApiRequest)
    ensures
        r.method == Method::Post,
        r.url@ == "https://api-lp1.znc.srv.nintendo.net/v2/Game/GetWebServiceToken"@,
        header_views(r.headers@) == game_token_headers(login_token@),
        r.body@ == game_token_body(
            GAME_ID,
            vstd::utf8::encode_utf8(f.f@),
            login_token.spec_bytes(),
            f.timestamp as int,
            vstd::utf8::encode_utf8(f.request_id@),
        ),
{
    let mut headers: Vec<(String, String)> = Vec::new();
    push_header(&mut headers, "host", "api-lp1.znc.srv.nintendo.net");
    push_header(&mut headers, "user-agent", "com.nintendo.znca/2.3.1, (Android/7.1.2)");
    push_header(&mut headers, "accept", "application/json");
    push_header(&mut headers, "X-ProductVersion", "2.3.1");
    push_header(&mut headers, "connection", "Keep-Alive");
    push_header_owned(&mut headers, "authorization", make_bearer(login_token));
    push_header(&mut headers, "X-Platform", "Android");
    push_header(&mut headers, "accept-encoding", "gzip");
    push_header(&mut headers, "content-type", "application/json");
    let mut body: Vec<u8> = Vec::new();
    push_str_bytes(&mut body, "{\"parameter\":{\"id\":");
    push_u64_digits(&mut body, GAME_ID);
    push_str_bytes(&mut body, ",\"f\":\"");
    push_json_escaped(&mut body, f.f.as_str());
    push_str_bytes(&mut body, "\",\"registrationToken\":\"");
    push_json_escaped(&mut body, login_token);
    push_str_bytes(&mut body, "\",\"timestamp\":");
    push_i64_digits(&mut body, f.timestamp);
    push_str_bytes(&mut body, ",\"requestId\":\"");
    push_json_escaped(&mut body, f.request_id.as_str());
    push_str_bytes(&mut body, "\"}}");
    proof {
        assert(header_views(headers@) =~= game_token_headers(login_token@));
        assert(body@ =~= game_token_body(
            GAME_ID,
            vstd::utf8::encode_utf8(f.f@),
            login_token.spec_bytes(),
            f.timestamp as int,
            vstd::utf8::encode_utf8(f.request_id@),
        ));
    }
    ApiRequest {
        method: Method::Post,
        url: String::from_str("https://api-lp1.znc.srv.nintendo.net/v2/Game/GetWebServiceToken"),
        headers,
        body,
    }
}

/// The game web token of a decoded response: `result.accessToken`.
pub open spec fn game_web_token_of(v: FieldValue) -> Option<Seq<char>> {
    match field_of(v, "result"@) {
        Some(r1) => str_field(r1, "accessToken"@),
        None => None,
    }
}

/// Takes the game web token out of a decoded response, discarding every
/// sibling field; a response without it is a remote rejection.
pub fn extract_game_web_token(resp: &FieldValue) -> (r: Result<String, AuthError>)
    ensures
        r is Ok <==> game_web_token_of(*resp) is Some,
        r matches Ok(t) ==> Some(t@) == game_web_token_of(*resp),
        r matches Err(e) ==> e == AuthError::RemoteRejection,
{
    match get_field(resp, "result") {
        Some(r1) => match get_str_field(r1, "accessToken") {
            Some(t) => Ok(t),
            None => Err(AuthError::RemoteRejection),
        },
        None => Err(AuthError::RemoteRejection),
    }
}

} // verus!
