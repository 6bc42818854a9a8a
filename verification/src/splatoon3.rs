//! Splatoon 3: its game identifier, the bullet-token exchange, and the
//! persisted-query requests against its data API.
//!
//! The version string of the mimicked web client build changes with the
//! vendor's deployments and is obtained out-of-band, so the builders here
//! take it as an argument rather than baking one in.

use vstd::prelude::*;
use vstd::string::StringExecFns;
use vstd::string::StringSliceAdditionalSpecFns;

use crate::encode::{json_escape, push_json_escaped, push_str_bytes};
use crate::json::{str_field, get_str_field, FieldValue};
use crate::login::AppFToken;
use crate::request::{bearer_value, gtoken_cookie, header_views, make_bearer, make_gtoken_cookie,
    push_header, push_header_owned, ApiRequest, Method};
use crate::AuthError;

verus! {

/// Splatoon 3's internal ID
pub const GAME_ID: u64 = 4834290508791808;

/// `StageScheduleQuery`
pub const SCHEDULES: &'static str = "7d4bb0565342b7385ceb97d109e14897";

/// `GesotownQuery`
pub const SPLATNET: &'static str = "a43dd44899a09013bcfd29b4b13314ff";

/// `CoopHistoryQuery`
pub const SALMON: &'static str = "817618ce39bcf5570f52a97d73301b30";

/// `SaleGearDetailOrderGesotownGearMutation`
pub const ORDER: &'static str = "b79b7a101a243912754f72437e2ad7e5";

/// `FestRecordQuery`
pub const SPLATFEST_OVERVIEW: &'static str = "44c76790b68ca0f3da87f2a3452de986";

/// `DetailFestRecordDetailQuery`
pub const SPLATFEST: &'static str = "2d661988c055d843b3be290f04fb0db9";

/// `LatestBattleHistoriesQuery`
pub const LATEST_BATTLES: &'static str = "7d8b560e31617e981cf7c8aa1ca13a00";

/// `MyOutfitCommonDataEquipmentsQuery`
pub const GEAR: &'static str = "d29cd0c2b5e6bac90dd5b817914832f8";

/// Builds the Splatoon 3 game-token request; see
/// [`crate::common::game_web_token_request`] for the contract it inherits.
pub fn web_token_request(f: &AppFToken, login_token: &str) -> (r: ApiRequest)
    ensures
        r.method == Method::Post,
        r.url@ == "https://api-lp1.znc.srv.nintendo.net/v2/Game/GetWebServiceToken"@,
        header_views(r.headers@) == crate::common::game_token_headers(login_token@),
        r.body@ == crate::common::game_token_body(
            4834290508791808u64,
            vstd::utf8::encode_utf8(f.f@),
            login_token.spec_bytes(),
            f.timestamp as int,
            vstd::utf8::encode_utf8(f.request_id@),
        ),
{
    crate::common::game_web_token_request::<4834290508791808>(f, login_token)
}

/// The headers of the bullet-token exchange: the game web token rides in the
/// `_gtoken` cookie beside the fixed do-not-track flag.
pub open spec fn bullet_token_headers(web_token: Seq<char>, web_view_version: Seq<char>) -> Seq<
    (Seq<char>, Seq<char>),
> {
    seq![
        ("origin"@, "https://api.lp1.av5ja.srv.nintendo.net"@),
        ("referer"@, "https://api.lp1.av5ja.srv.nintendo.net/"@),
        ("X-Web-View-Ver"@, web_view_version),
        (
            "user-agent"@,
            "Mozilla/5.0 (Linux; Android 7.1.2; Pixel Build/NJH47D; wv) AppleWebKit/537.36 (KHTML, like Gecko) Version/4.0 Chrome/59.0.3071.125 Mobile Safari/537.36"@,
        ),
        ("cookie"@, gtoken_cookie(web_token)),
    ]
}

/// Builds the bodyless POST that trades a game web token for a bullet token.
pub fn bullet_token_request(web_token: &str, web_view_version: &str) -> (r: ApiRequest)
    ensures
        r.method == Method::Post,
        r.url@ == "https://api.lp1.av5ja.srv.nintendo.net/api/bullet_tokens"@,
        header_views(r.headers@) == bullet_token_headers(web_token@, web_view_version@),
        r.body@ == Seq::<u8>::empty(),
{
    let mut headers: Vec<(String, String)> = Vec::new();
    push_header(&mut headers, "origin", "https://api.lp1.av5ja.srv.nintendo.net");
    push_header(&mut headers, "referer", "https://api.lp1.av5ja.srv.nintendo.net/");
    push_header_owned(&mut headers, "X-Web-View-Ver", String::from_str(web_view_version));
    push_header(
        &mut headers,
        "user-agent",
        "Mozilla/5.0 (Linux; Android 7.1.2; Pixel Build/NJH47D; wv) AppleWebKit/537.36 (KHTML, like Gecko) Version/4.0 Chrome/59.0.3071.125 Mobile Safari/537.36",
    );
    push_header_owned(&mut headers, "cookie", make_gtoken_cookie(web_token));
    let body: Vec<u8> = Vec::new();
    proof {
        assert(header_views(headers@) =~= bullet_token_headers(web_token@, web_view_version@));
        assert(body@ =~= Seq::<u8>::empty());
    }
    ApiRequest {
        method: Method::Post,
        url: String::from_str("https://api.lp1.av5ja.srv.nintendo.net/api/bullet_tokens"),
        headers,
        body,
    }
}

/// Takes the `bulletToken` field out of the exchange's decoded response,
/// discarding every sibling field; a response without it is a remote
/// rejection.
pub fn extract_bullet_token(resp: &FieldValue) -> (r: Result<String, AuthError>)
    ensures
        r is Ok <==> str_field(*resp, "bulletToken"@) is Some,
        r matches Ok(t) ==> Some(t@) == str_field(*resp, "bulletToken"@),
        r matches Err(e) ==> e == AuthError::RemoteRejection,
{
    match get_str_field(resp, "bulletToken") {
        Some(t) => Ok(t),
        None => Err(AuthError::RemoteRejection),
    }
}

/// The headers of a persisted-query call: the bullet token as the bearer,
/// the game web token re-sent as the `_gtoken` cookie.
pub open spec fn graphql_headers(
    bullet_token: Seq<char>,
    lang: Seq<char>,
    web_token: Seq<char>,
    web_view_version: Seq<char>,
) -> Seq<(Seq<char>, Seq<char>)> {
    seq![
        ("authorization"@, bearer_value(bullet_token)),
        ("X-Web-View-Ver"@, web_view_version),
        ("origin"@, "https://api.lp1.av5ja.srv.nintendo.net"@),
        ("referer"@, "https://api.lp1.av5ja.srv.nintendo.net/schedule/regular"@),
        (
            "user-agent"@,
            "Mozilla/5.0 (Linux; Android 7.1.2; Pixel Build/NJH47D; wv) AppleWebKit/537.36 (KHTML, like Gecko) Version/4.0 Chrome/59.0.3071.125 Mobile Safari/537.36"@,
        ),
        ("accept-language"@, lang),
        ("X-Requested-With"@, "XMLHttpRequest"@),
        ("cookie"@, gtoken_cookie(web_token)),
        ("content-type"@, "application/json"@),
    ]
}

/// The body of a persisted-query call: the query hash under the fixed
/// `persistedQuery` envelope, and the caller's variables object verbatim.
pub open spec fn graphql_body(query_hash: Seq<u8>, variables: Seq<u8>) -> Seq<u8> {
    "{\"extensions\":{\"persistedQuery\":{\"sha256Hash\":\"".spec_bytes() + json_escape(query_hash)
        + "\",\"version\":1}},\"variables\":".spec_bytes() + variables + "}".spec_bytes()
}

/// Builds a persisted-query request whose `variables` member is the given
/// JSON text; the response body is not interpreted here, its schema is
/// outside this pipeline's contract.
pub fn graphql_query_with_variables_request(
    bullet_token: &str,
    lang: &str,
    web_token: &str,
    query_hash: &str,
    variables_json: &[u8],
    web_view_version: &str,
) -> (r: ApiRequest)
    ensures
        r.method == Method::Post,
        r.url@ == "https://api.lp1.av5ja.srv.nintendo.net/api/graphql"@,
        header_views(r.headers@) == graphql_headers(
            bullet_token@,
            lang@,
            web_token@,
            web_view_version@,
        ),
        r.body@ == graphql_body(query_hash.spec_bytes(), variables_json@),
{
    let mut headers: Vec<(String, String)> = Vec::new();
    push_header_owned(&mut headers, "authorization", make_bearer(bullet_token));
    push_header_owned(&mut headers, "X-Web-View-Ver", String::from_str(web_view_version));
    push_header(&mut headers, "origin", "https://api.lp1.av5ja.srv.nintendo.net");
    push_header(&mut headers, "referer", "https://api.lp1.av5ja.srv.nintendo.net/schedule/regular");
    push_header(
        &mut headers,
        "user-agent",
        "Mozilla/5.0 (Linux; Android 7.1.2; Pixel Build/NJH47D; wv) AppleWebKit/537.36 (KHTML, like Gecko) Version/4.0 Chrome/59.0.3071.125 Mobile Safari/537.36",
    );
    push_header_owned(&mut headers, "accept-language", String::from_str(lang));
    push_header(&mut headers, "X-Requested-With", "XMLHttpRequest");
    push_header_owned(&mut headers, "cookie", make_gtoken_cookie(web_token));
    push_header(&mut headers, "content-type", "application/json");
    let mut body: Vec<u8> = Vec::new();
    push_str_bytes(&mut body, "{\"extensions\":{\"persistedQuery\":{\"sha256Hash\":\"");
    push_json_escaped(&mut body, query_hash);
    push_str_bytes(&mut body, "\",\"version\":1}},\"variables\":");
    body.extend_from_slice(variables_json);
    push_str_bytes(&mut body, "}");
    proof {
        assert(header_views(headers@) =~= graphql_headers(
            bullet_token@,
            lang@,
            web_token@,
            web_view_version@,
        ));
        assert(body@ =~= graphql_body(query_hash.spec_bytes(), variables_json@));
    }
    ApiRequest {
        method: Method::Post,
        url: String::from_str("https://api.lp1.av5ja.srv.nintendo.net/api/graphql"),
        headers,
        body,
    }
}

/// Builds a persisted-query request with no variables: the `variables`
/// member is the empty object.
pub fn graphql_query_request(
    bullet_token: &str,
    lang: &str,
    web_token: &str,
    query_hash: &str,
    web_view_version: &str,
) -> (r: ApiRequest)
    ensures
        r.method == Method::Post,
        r.url@ == "https://api.lp1.av5ja.srv.nintendo.net/api/graphql"@,
        header_views(r.headers@) == graphql_headers(
            bullet_token@,
            lang@,
            web_token@,
            web_view_version@,
        ),
        r.body@ == graphql_body(query_hash.spec_bytes(), "{}".spec_bytes()),
{
    let empty_vars: &[u8] = "{}".as_bytes();
    graphql_query_with_variables_request(
        bullet_token,
        lang,
        web_token,
        query_hash,
        empty_vars,
        web_view_version,
    )
}

} // verus!
