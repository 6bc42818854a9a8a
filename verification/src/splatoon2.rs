//! Splatoon 2: its game identifier and the terminal step that trades the
//! game web token for the `iksm_session` cookie.

use vstd::prelude::*;
use vstd::string::StringExecFns;
use vstd::string::StringSliceAdditionalSpecFns;

use crate::login::AppFToken;
use crate::request::{header_views, push_header, push_header_owned, ApiRequest, Method};

verus! {

/// Splatoon 2's internal ID
pub const GAME_ID: u64 = 5741031244955648;

/// Builds the Splatoon 2 game-token request; see
/// [`crate::common::game_web_token_request`] for the contract it inherits.
pub fn web_token_request(f: &AppFToken, login_token: &str) -> (r: ApiRequest)
    ensures
        r.method == Method::Post,
        r.url@ == "https://api-lp1.znc.srv.nintendo.net/v2/Game/GetWebServiceToken"@,
        header_views(r.headers@) == crate::common::game_token_headers(login_token@),
        r.body@ == crate::common::game_token_body(
            5741031244955648u64,
            vstd::utf8::encode_utf8(f.f@),
            login_token.spec_bytes(),
            f.timestamp as int,
            vstd::utf8::encode_utf8(f.request_id@),
        ),
{
    crate::common::game_web_token_request::<5741031244955648>(f, login_token)
}

/// The headers of the Splatoon 2 front-door GET that yields the session
/// cookie, with the game web token in `X-GameWebToken`.
pub open spec fn iksm_session_headers(web_token: Seq<char>) -> Seq<(Seq<char>, Seq<char>)> {
    seq![
        ("host"@, "app.splatoon2.nintendo.net"@),
        ("X-IsAppAnalyticsOptedIn"@, "false"@),
        ("accept"@, "text/html,application/xhtml+xml,application/xml;q=0.9,*/*;q=0.8"@),
        ("accept-encoding"@, "gzip,deflate"@),
        ("X-GameWebToken"@, web_token),
        ("accept-language"@, "en-US"@),
        ("X-IsAnalyticsOptedIn"@, "false"@),
        ("connection"@, "keep-alive"@),
        ("dnt"@, "0"@),
        (
            "user-agent"@,
            "Mozilla/5.0 (Linux; Android 7.1.2; Pixel Build/NJH47D; wv) AppleWebKit/537.36 (KHTML, like Gecko) Version/4.0 Chrome/59.0.3071.125 Mobile Safari/537.36"@,
        ),
        ("X-Requested-With"@, "com.nintendo.znca"@),
    ]
}

/// Builds the GET whose response's cookies carry the `iksm_session`.
pub fn iksm_session_request(web_token: &str) -> (r: ApiRequest)
    ensures
        r.method == Method::Get,
        r.url@ == "https://app.splatoon2.nintendo.net/?lang=en-US"@,
        header_views(r.headers@) == iksm_session_headers(web_token@),
        r.body@ == Seq::<u8>::empty(),
{
    let mut headers: Vec<(String, String)> = Vec::new();
    push_header(&mut headers, "host", "app.splatoon2.nintendo.net");
    push_header(&mut headers, "X-IsAppAnalyticsOptedIn", "false");
    push_header(
        &mut headers,
        "accept",
        "text/html,application/xhtml+xml,application/xml;q=0.9,*/*;q=0.8",
    );
    push_header(&mut headers, "accept-encoding", "gzip,deflate");
    push_header_owned(&mut headers, "X-GameWebToken", String::from_str(web_token));
    push_header(&mut headers, "accept-language", "en-US");
    push_header(&mut headers, "X-IsAnalyticsOptedIn", "false");
    push_header(&mut headers, "connection", "keep-alive");
    push_header(&mut headers, "dnt", "0");
    push_header(
        &mut headers,
        "user-agent",
        "Mozilla/5.0 (Linux; Android 7.1.2; Pixel Build/NJH47D; wv) AppleWebKit/537.36 (KHTML, like Gecko) Version/4.0 Chrome/59.0.3071.125 Mobile Safari/537.36",
    );
    push_header(&mut headers, "X-Requested-With", "com.nintendo.znca");
    let body: Vec<u8> = Vec::new();
    proof {
        assert(header_views(headers@) =~= iksm_session_headers(web_token@));
        assert(body@ =~= Seq::<u8>::empty());
    }
    ApiRequest {
        method: Method::Get,
        url: String::from_str("https://app.splatoon2.nintendo.net/?lang=en-US"),
        headers,
        body,
    }
}

/// The value of the first cookie named `name` among the response's cookies.
pub open spec fn cookie_value(cookies: Seq<(String, String)>, name: Seq<char>) -> Option<
    Seq<char>,
>
    decreases cookies.len(),
{
    if cookies.len() == 0 {
        None
    } else if cookies[0].0@ == name {
        Some(cookies[0].1@)
    } else {
        cookie_value(cookies.drop_first(), name)
    }
}

/// Picks the `iksm_session` cookie out of the response's cookies. A missing
/// cookie is a valid outcome, `None`, not an error: the caller distinguishes
/// it from a failed request.
pub fn find_iksm_session(cookies: &Vec<(String, String)>) -> (r: Option<String>)
    ensures
        match cookie_value(cookies@, "iksm_session"@) {
            Some(v) => r is Some && r.unwrap()@ == v,
            None => r is None,
        },
{
    let name = String::from_str("iksm_session");
    proof {
        assert(cookies@.skip(0) =~= cookies@);
    }
    let mut i: usize = 0;
    while i < cookies.len()
        invariant
            i <= cookies@.len(),
            name@ == "iksm_session"@,
            cookie_value(cookies@, "iksm_session"@) == cookie_value(
                cookies@.skip(i as int),
                "iksm_session"@,
            ),
        decreases cookies@.len() - i,
    {
        proof {
            assert(cookies@.skip(i as int).drop_first() =~= cookies@.skip(i + 1));
            assert(cookies@.skip(i as int)[0] == cookies@[i as int]);
        }
        if cookies[i].0 == name {
            return Some(cookies[i].1.clone());
        }
        i = i + 1;
    }
    proof {
        assert(cookies@.skip(i as int) =~= Seq::<(String, String)>::empty());
    }
    None
}

} // verus!
