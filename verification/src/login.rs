//! The account-side stages of the pipeline: PKCE state for the browser
//! authorization step, extraction of the exchange code from the pasted
//! redirect URL, and the session-token, access-token, profile, attestation
//! and platform-login exchanges.

use rand::Rng;
use rand::SeedableRng;
use sha2::Digest;
use vstd::prelude::*;
use vstd::string::StringSliceAdditionalSpecFns;
use vstd::string::StrSliceExecFns;
use vstd::string::StringExecFns;

use crate::b64::{b64url_chars, b64url_encode, lemma_b64url_ascii, lemma_b64url_len};
use crate::encode::{
    ascii_bytes, form_escape, json_escape, push_form_escaped, push_json_escaped, push_str_bytes,
    push_i64_digits, dec_i64,
};
use crate::json::{str_field, u64_field, i64_field, str_list_field, strings_views, FieldValue,
    get_str_field, get_u64_field, get_i64_field, get_str_list, get_field, field_of};
use crate::request::{header_views, bearer_value, make_bearer, push_header, push_header_owned,
    ApiRequest, Method};
use crate::AuthError;

verus! {

// ---------------------------------------------------------------------------
// PKCE generation
// ---------------------------------------------------------------------------

/// What the external digest returns for a byte sequence. Stated only by
/// name: nothing here depends on the digest's internal structure.
pub uninterp spec fn sha256_of(data: Seq<u8>) -> Seq<u8>;

/// Relies on `sha2::Sha256::digest`: the SHA-256 digest is a function of the
/// input bytes alone and is 32 bytes long.
#[verifier::external_body]
fn sha256_digest(data: &[u8]) -> (r: Vec<u8>)
    ensures
        r@ == sha256_of(data@),
        r@.len() == 32,
{
    sha2::Sha256::digest(data).to_vec()
}

/// Relies on `rand_chacha::ChaChaRng::from_entropy` and `rand::Rng::fill`:
/// fills a buffer of the asked-for length from a cryptographically secure
/// source. Nothing is promised of the bytes themselves.
#[verifier::external_body]
fn random_bytes(n: usize) -> (r: Vec<u8>)
    ensures
        r@.len() == n as nat,
{
    let mut rng = rand_chacha::ChaChaRng::from_entropy();
    let mut data = vec![0u8; n];
    rng.fill(data.as_mut_slice());
    data
}

/// A login URL to open in a browser, and the PKCE verifier that must be
/// retained to redeem the exchange code the browser flow produces.
pub struct UrlAndVerifier {
    pub url: String,
    pub verifier: String,
}

/// The challenge embedded in a login URL: the URL-safe base64 encoding,
/// without padding, of the SHA-256 digest of the verifier's own characters.
pub open spec fn challenge_of(verifier: Seq<char>) -> Seq<char> {
    b64url_chars(sha256_of(ascii_bytes(verifier)))
}

/// The authorization URL for a state and challenge: a fixed template where
/// only those two vary.
pub open spec fn login_url(state: Seq<char>, challenge: Seq<char>) -> Seq<char> {
    "https://accounts.nintendo.com/connect/1.0.0/authorize?state="@ + state
        + "&redirect_uri=npf71b963c1b7b6d119://auth&client_id=71b963c1b7b6d119&scope=openid+user+user.birthday+user.mii+user.screenName&response_type=session_token_code&session_token_code_challenge="@
        + challenge + "&session_token_code_challenge_method=S256&theme=login_form"@
}

/// Generates a login URL and verifier code.
///
/// The verifier is 32 random bytes and the state 36, each URL-safe
/// base64-encoded without padding; the URL embeds the challenge derived
/// from the verifier's encoded characters.
#[must_use]
pub fn get_login_url_and_verifier() -> (r: UrlAndVerifier)
    ensures
        r.verifier@.len() == 43,
        r.url@ == login_url(url_state_part(r.url@), challenge_of(r.verifier@)),
        url_state_part(r.url@).len() == 48,
{
    let state_bytes = random_bytes(36);
    let auth_state = b64url_encode(state_bytes.as_slice());
    let verifier_bytes = random_bytes(32);
    let auth_code_verifier = b64url_encode(verifier_bytes.as_slice());
    proof {
        lemma_b64url_len(state_bytes@);
        lemma_b64url_len(verifier_bytes@);
        lemma_b64url_ascii(verifier_bytes@);
    }
    let digest = sha256_digest(auth_code_verifier.as_str().as_bytes());
    proof {
        vstd::utf8::is_ascii_chars_encode_utf8(auth_code_verifier@);
        assert(vstd::utf8::encode_utf8(auth_code_verifier@) =~= ascii_bytes(
            auth_code_verifier@,
        ));
    }
    let auth_code_challenge = b64url_encode(digest.as_slice());
    let mut url = String::from_str(
        "https://accounts.nintendo.com/connect/1.0.0/authorize?state=",
    );
    url.append(auth_state.as_str());
    url.append(
        "&redirect_uri=npf71b963c1b7b6d119://auth&client_id=71b963c1b7b6d119&scope=openid+user+user.birthday+user.mii+user.screenName&response_type=session_token_code&session_token_code_challenge=",
    );
    url.append(auth_code_challenge.as_str());
    url.append("&session_token_code_challenge_method=S256&theme=login_form");
    proof {
        reveal_strlit("https://accounts.nintendo.com/connect/1.0.0/authorize?state=");
        assert(url@.subrange(60, 108) =~= auth_state@);
        assert(url@ =~= login_url(auth_state@, challenge_of(auth_code_verifier@)));
    }
    UrlAndVerifier { url, verifier: auth_code_verifier }
}

/// The `state` query value of a generated login URL: the 48 characters after
/// the fixed prefix.
pub open spec fn url_state_part(url: Seq<char>) -> Seq<char> {
    url.subrange(60, 108)
}

// ---------------------------------------------------------------------------
// Redirect URL parsing
// ---------------------------------------------------------------------------

/// The scheme prefix a pasted redirect URL must carry.
pub open spec fn redirect_prefix() -> Seq<char> {
    "npf71b963c1b7b6d119://auth#"@
}

/// The key whose value is the exchange code.
pub open spec fn code_key() -> Seq<char> {
    "session_token_code="@
}

/// The end of the `&`-delimited segment that starts at `i`: the next `&` at
/// or after `i`, or the end of the string.
pub open spec fn seg_end(s: Seq<char>, i: int) -> int
    decreases s.len() - i,
{
    if i >= s.len() {
        s.len() as int
    } else if s[i] == '&' {
        i
    } else {
        seg_end(s, i + 1)
    }
}

pub proof fn lemma_seg_end_bounds(s: Seq<char>, i: int)
    requires
        i <= s.len(),
    ensures
        i <= seg_end(s, i) <= s.len(),
    decreases s.len() - i,
{
    if i < s.len() && s[i] != '&' {
        lemma_seg_end_bounds(s, i + 1);
    }
}

/// `seg_end(s, i)` is the position `e` exactly when no `&` stands in
/// `[i, e)` and `e` is the end of the string or an `&`.
pub proof fn lemma_seg_end_at(s: Seq<char>, i: int, e: int)
    requires
        0 <= i <= e <= s.len(),
        forall|k: int| i <= k < e ==> s[k] != '&',
        e == s.len() || s[e] == '&',
    ensures
        seg_end(s, i) == e,
    decreases e - i,
{
    if i < e {
        lemma_seg_end_at(s, i + 1, e);
    }
}

/// Whether the segment `[i, seg_end)` carries the exchange-code key.
pub open spec fn seg_matches(s: Seq<char>, i: int, e: int) -> bool {
    e - i >= 19 && s.subrange(i, i + 19) == code_key()
}

/// The value of the first `&`-delimited segment at or after `i` that starts
/// with the exchange-code key.
pub open spec fn find_code(s: Seq<char>, i: int) -> Option<Seq<char>>
    decreases s.len() - i,
    when 0 <= i
    via find_code_dec
{
    let e = seg_end(s, i);
    if seg_matches(s, i, e) {
        Some(s.subrange(i + 19, e))
    } else if e >= s.len() {
        None
    } else {
        find_code(s, e + 1)
    }
}

#[via_fn]
proof fn find_code_dec(s: Seq<char>, i: int) {
    if i <= s.len() {
        lemma_seg_end_bounds(s, i);
    }
}

/// The exchange code of a redirect URL: present exactly when the URL starts
/// with the fixed scheme prefix and some fragment segment carries the key.
pub open spec fn spec_session_token_code(u: Seq<char>) -> Option<Seq<char>> {
    if u.len() >= 27 && u.subrange(0, 27) == redirect_prefix() {
        find_code(u, 27)
    } else {
        None
    }
}

/// Whether the segment `[i, e)` of `s` starts with the exchange-code key.
fn seg_has_code_key(s: &str, i: usize, e: usize) -> (r: bool)
    requires
        i <= e <= s@.len(),
    ensures
        r == seg_matches(s@, i as int, e as int),
{
    proof {
        reveal_strlit("session_token_code=");
    }
    if e - i < 19 {
        return false;
    }
    let key: &str = "session_token_code=";
    let mut j: usize = 0;
    while j < 19
        invariant
            j <= 19,
            i + 19 <= e <= s@.len(),
            key@ == code_key(),
            key@.len() == 19,
            forall|k: int| 0 <= k < j ==> s@[i + k] == code_key()[k],
        decreases 19 - j,
    {
        if s.get_char(i + j) != key.get_char(j) {
            proof {
                assert(s@.subrange(i as int, i as int + 19)[j as int] == s@[i + j as int]);
            }
            return false;
        }
        j = j + 1;
    }
    proof {
        assert(s@.subrange(i as int, i as int + 19) =~= code_key());
    }
    true
}

/// Extract the user's `session_token_code` from their 'Select this person' URL
///
/// Returns `None` if the URL is invalid: no scheme prefix, or no fragment
/// segment carrying the code.
#[must_use]
pub fn get_session_token_code_from_select_url<'a>(select_url: &'a str) -> (r: Option<&'a str>)
    ensures
        match spec_session_token_code(select_url@) {
            Some(code) => r is Some && r.unwrap()@ == code,
            None => r is None,
        },
{
    proof {
        reveal_strlit("npf71b963c1b7b6d119://auth#");
    }
    let n = select_url.unicode_len();
    if n < 27 {
        return None;
    }
    let prefix: &str = "npf71b963c1b7b6d119://auth#";
    let mut j: usize = 0;
    while j < 27
        invariant
            j <= 27,
            27 <= select_url@.len(),
            prefix@ == redirect_prefix(),
            prefix@.len() == 27,
            forall|k: int| 0 <= k < j ==> select_url@[k] == redirect_prefix()[k],
        decreases 27 - j,
    {
        if select_url.get_char(j) != prefix.get_char(j) {
            proof {
                assert(select_url@.subrange(0, 27)[j as int] == select_url@[j as int]);
            }
            return None;
        }
        j = j + 1;
    }
    proof {
        assert(select_url@.subrange(0, 27) =~= redirect_prefix());
    }
    let mut i: usize = 27;
    loop
        invariant
            27 <= i <= select_url@.len(),
            n == select_url@.len(),
            select_url@.subrange(0, 27) == redirect_prefix(),
            spec_session_token_code(select_url@) == find_code(select_url@, i as int),
        decreases select_url@.len() - i,
    {
        let mut e: usize = i;
        while e < n && select_url.get_char(e) != '&'
            invariant
                i <= e <= select_url@.len(),
                n == select_url@.len(),
                forall|k: int| i <= k < e ==> select_url@[k] != '&',
            decreases select_url@.len() - e,
        {
            e = e + 1;
        }
        proof {
            lemma_seg_end_at(select_url@, i as int, e as int);
        }
        if seg_has_code_key(select_url, i, e) {
            return Some(select_url.substring_char(i + 19, e));
        }
        if e == n {
            return None;
        }
        i = e + 1;
    }
}

/// A redirect URL that lacks the fixed scheme prefix never yields an
/// exchange code; together with the parser's exact postcondition this makes
/// parsing total and a function of the input alone.
pub proof fn lemma_redirect_without_prefix_rejected(u: Seq<char>)
    requires
        !(u.len() >= 27 && u.subrange(0, 27) == redirect_prefix()),
    ensures
        spec_session_token_code(u) is None,
{
}

// ---------------------------------------------------------------------------
// Session token exchange
// ---------------------------------------------------------------------------

/// The headers the mimicked client sends to the account service.
pub open spec fn account_headers() -> Seq<(Seq<char>, Seq<char>)> {
    seq![
        ("user-agent"@, "OnlineLounge/2.3.1 NASDKAPI Android"@),
        ("accept-language"@, "en-US"@),
        ("accept"@, "application/json"@),
        ("host"@, "accounts.nintendo.com"@),
        ("connection"@, "Keep-Alive"@),
        ("accept-encoding"@, "gzip"@),
    ]
}

fn push_account_headers(headers: &mut Vec<(String, String)>)
    ensures
        header_views(final(headers)@) == header_views(old(headers)@) + account_headers(),
{
    push_header(headers, "user-agent", "OnlineLounge/2.3.1 NASDKAPI Android");
    push_header(headers, "accept-language", "en-US");
    push_header(headers, "accept", "application/json");
    push_header(headers, "host", "accounts.nintendo.com");
    push_header(headers, "connection", "Keep-Alive");
    push_header(headers, "accept-encoding", "gzip");
    proof {
        assert(header_views(headers@) =~= header_views(old(headers)@) + account_headers());
    }
}

/// The form-encoded body of the session-token exchange.
pub open spec fn session_token_body(code: Seq<u8>, verifier: Seq<u8>) -> Seq<u8> {
    "client_id=71b963c1b7b6d119&session_token_code=".spec_bytes() + form_escape(code)
        + "&session_token_code_verifier=".spec_bytes() + form_escape(verifier)
}

/// Builds the request that redeems an exchange code, together with the PKCE
/// verifier, for a long-lived `session_token`.
pub fn session_token_request(session_token_code: &str, auth_code_verifier: &str) -> (r: ApiRequest)
    ensures
        r.method == Method::Post,
        r.url@ == "https://accounts.nintendo.com/connect/1.0.0/api/session_token"@,
        header_views(r.headers@) == account_headers().push(
            ("content-type"@, "application/x-www-form-urlencoded"@),
        ),
        r.body@ == session_token_body(
            session_token_code.spec_bytes(),
            auth_code_verifier.spec_bytes(),
        ),
{
    let mut headers: Vec<(String, String)> = Vec::new();
    push_account_headers(&mut headers);
    push_header(&mut headers, "content-type", "application/x-www-form-urlencoded");
    let mut body: Vec<u8> = Vec::new();
    push_str_bytes(&mut body, "client_id=71b963c1b7b6d119&session_token_code=");
    push_form_escaped(&mut body, session_token_code);
    push_str_bytes(&mut body, "&session_token_code_verifier=");
    push_form_escaped(&mut body, auth_code_verifier);
    proof {
        assert(header_views(headers@) =~= account_headers().push(
            ("content-type"@, "application/x-www-form-urlencoded"@),
        ));
        assert(body@ =~= session_token_body(
            session_token_code.spec_bytes(),
            auth_code_verifier.spec_bytes(),
        ));
    }
    ApiRequest {
        method: Method::Post,
        url: String::from_str("https://accounts.nintendo.com/connect/1.0.0/api/session_token"),
        headers,
        body,
    }
}

/// Takes the `session_token` field out of the exchange's decoded response;
/// a response without it is a remote rejection.
pub fn extract_session_token(resp: &FieldValue) -> (r: Result<String, AuthError>)
    ensures
        r is Ok <==> str_field(*resp, "session_token"@) is Some,
        r matches Ok(t) ==> Some(t@) == str_field(*resp, "session_token"@),
        r matches Err(e) ==> e == AuthError::RemoteRejection,
{
    match get_str_field(resp, "session_token") {
        Some(t) => Ok(t),
        None => Err(AuthError::RemoteRejection),
    }
}

// ---------------------------------------------------------------------------
// Access token exchange
// ---------------------------------------------------------------------------

/// Short-lived credentials obtained from a `session_token`.
pub struct Tokens {
    pub access_token: String,
    pub id_token: String,
    pub expires_in: u64,
    /// Should always be `"Bearer"`, but this isn't checked
    pub token_type: String,
    /// Should always be
    /// `["openid", "user", "user.birthday", "user.mii", "user.screenName"]`,
    /// but this isn't checked
    pub scope: [String; 5],
}

/// The JSON body of the access-token exchange.
pub open spec fn access_token_body(session_token: Seq<u8>) -> Seq<u8> {
    "{\"client_id\":\"71b963c1b7b6d119\",\"session_token\":\"".spec_bytes() + json_escape(
        session_token,
    )
        + "\",\"grant_type\":\"urn:ietf:params:oauth:grant-type:jwt-bearer-session-token\"}".spec_bytes()
}

/// Builds the request that redeems a `session_token` for access and ID tokens.
pub fn access_token_request(session_token: &str) -> (r: ApiRequest)
    ensures
        r.method == Method::Post,
        r.url@ == "https://accounts.nintendo.com/connect/1.0.0/api/token"@,
        header_views(r.headers@) == account_headers().push(
            ("content-type"@, "application/json"@),
        ),
        r.body@ == access_token_body(session_token.spec_bytes()),
{
    let mut headers: Vec<(String, String)> = Vec::new();
    push_account_headers(&mut headers);
    push_header(&mut headers, "content-type", "application/json");
    let mut body: Vec<u8> = Vec::new();
    push_str_bytes(&mut body, "{\"client_id\":\"71b963c1b7b6d119\",\"session_token\":\"");
    push_json_escaped(&mut body, session_token);
    push_str_bytes(
        &mut body,
        "\",\"grant_type\":\"urn:ietf:params:oauth:grant-type:jwt-bearer-session-token\"}",
    );
    proof {
        assert(header_views(headers@) =~= account_headers().push(
            ("content-type"@, "application/json"@),
        ));
        assert(body@ =~= access_token_body(session_token.spec_bytes()));
    }
    ApiRequest {
        method: Method::Post,
        url: String::from_str("https://accounts.nintendo.com/connect/1.0.0/api/token"),
        headers,
        body,
    }
}

/// Whether a decoded access-token response carries every field [`Tokens`]
/// needs: string `access_token`, `id_token` and `token_type`, an integer
/// `expires_in`, and a `scope` list of exactly five strings.
pub open spec fn tokens_decodable(v: FieldValue) -> bool {
    &&& str_field(v, "access_token"@) is Some
    &&& str_field(v, "id_token"@) is Some
    &&& u64_field(v, "expires_in"@) is Some
    &&& str_field(v, "token_type"@) is Some
    &&& str_list_field(v, "scope"@) matches Some(l) && l.len() == 5
}

/// Builds [`Tokens`] from the exchange's decoded response; a response
/// missing any field is a remote rejection.
pub fn tokens_from_fields(resp: &FieldValue) -> (r: Result<Tokens, AuthError>)
    ensures
        r is Ok <==> tokens_decodable(*resp),
        r matches Ok(t) ==> {
            &&& Some(t.access_token@) == str_field(*resp, "access_token"@)
            &&& Some(t.id_token@) == str_field(*resp, "id_token"@)
            &&& Some(t.expires_in) == u64_field(*resp, "expires_in"@)
            &&& Some(t.token_type@) == str_field(*resp, "token_type"@)
            &&& Some(strings_views(t.scope@)) == str_list_field(*resp, "scope"@)
        },
        r matches Err(e) ==> e == AuthError::RemoteRejection,
{
    let access_token = match get_str_field(resp, "access_token") {
        Some(t) => t,
        None => { return Err(AuthError::RemoteRejection) },
    };
    let id_token = match get_str_field(resp, "id_token") {
        Some(t) => t,
        None => { return Err(AuthError::RemoteRejection) },
    };
    let expires_in = match get_u64_field(resp, "expires_in") {
        Some(t) => t,
        None => { return Err(AuthError::RemoteRejection) },
    };
    let token_type = match get_str_field(resp, "token_type") {
        Some(t) => t,
        None => { return Err(AuthError::RemoteRejection) },
    };
    let mut scope_list = match get_str_list(resp, "scope") {
        Some(l) => l,
        None => { return Err(AuthError::RemoteRejection) },
    };
    if scope_list.len() != 5 {
        return Err(AuthError::RemoteRejection);
    }
    let ghost full = scope_list@;
    let s4 = scope_list.pop().unwrap();
    let s3 = scope_list.pop().unwrap();
    let s2 = scope_list.pop().unwrap();
    let s1 = scope_list.pop().unwrap();
    let s0 = scope_list.pop().unwrap();
    let scope: [String; 5] = [s0, s1, s2, s3, s4];
    proof {
        assert(strings_views(scope@) =~= strings_views(full));
    }
    Ok(Tokens { access_token, id_token, expires_in, token_type, scope })
}

// ---------------------------------------------------------------------------
// Account profile
// ---------------------------------------------------------------------------

/// The three account-profile fields the pipeline needs. The profile response
/// carries many more personal fields; none of them is retained — this type
/// cannot hold them.
pub struct UserInfo {
    pub country: String,
    pub birthday: String,
    pub language: String,
}

/// The headers of the profile fetch, with the access token as the bearer.
pub open spec fn user_info_headers(access_token: Seq<char>) -> Seq<(Seq<char>, Seq<char>)> {
    seq![
        ("user-agent"@, "OnlineLounge/2.3.1 NASDKAPI Android"@),
        ("accept-language"@, "en-US"@),
        ("accept"@, "application/json"@),
        ("authorization"@, bearer_value(access_token)),
        ("host"@, "api.accounts.nintendo.com"@),
        ("connection"@, "Keep-Alive"@),
        ("accept-encoding"@, "gzip"@),
    ]
}

/// Builds the authenticated GET for the account profile.
pub fn user_info_request(access_token: &str) -> (r: ApiRequest)
    ensures
        r.method == Method::Get,
        r.url@ == "https://api.accounts.nintendo.com/2.0.0/users/me"@,
        header_views(r.headers@) == user_info_headers(access_token@),
        r.body@ == Seq::<u8>::empty(),
{
    let mut headers: Vec<(String, String)> = Vec::new();
    push_header(&mut headers, "user-agent", "OnlineLounge/2.3.1 NASDKAPI Android");
    push_header(&mut headers, "accept-language", "en-US");
    push_header(&mut headers, "accept", "application/json");
    push_header_owned(&mut headers, "authorization", make_bearer(access_token));
    push_header(&mut headers, "host", "api.accounts.nintendo.com");
    push_header(&mut headers, "connection", "Keep-Alive");
    push_header(&mut headers, "accept-encoding", "gzip");
    let body: Vec<u8> = Vec::new();
    proof {
        assert(header_views(headers@) =~= user_info_headers(access_token@));
        assert(body@ =~= Seq::<u8>::empty());
    }
    ApiRequest {
        method: Method::Get,
        url: String::from_str("https://api.accounts.nintendo.com/2.0.0/users/me"),
        headers,
        body,
    }
}

/// Whether a decoded profile response carries the three retained fields.
pub open spec fn user_info_decodable(v: FieldValue) -> bool {
    &&& str_field(v, "country"@) is Some
    &&& str_field(v, "birthday"@) is Some
    &&& str_field(v, "language"@) is Some
}

/// Projects a decoded profile response to [`UserInfo`], discarding every
/// other field the response carried; a response missing one of the three is
/// a remote rejection.
pub fn user_info_from_fields(resp: &FieldValue) -> (r: Result<UserInfo, AuthError>)
    ensures
        r is Ok <==> user_info_decodable(*resp),
        r matches Ok(u) ==> {
            &&& Some(u.country@) == str_field(*resp, "country"@)
            &&& Some(u.birthday@) == str_field(*resp, "birthday"@)
            &&& Some(u.language@) == str_field(*resp, "language"@)
        },
        r matches Err(e) ==> e == AuthError::RemoteRejection,
{
    let country = match get_str_field(resp, "country") {
        Some(t) => t,
        None => { return Err(AuthError::RemoteRejection) },
    };
    let birthday = match get_str_field(resp, "birthday") {
        Some(t) => t,
        None => { return Err(AuthError::RemoteRejection) },
    };
    let language = match get_str_field(resp, "language") {
        Some(t) => t,
        None => { return Err(AuthError::RemoteRejection) },
    };
    Ok(UserInfo { country, birthday, language })
}

// ---------------------------------------------------------------------------
// Attestation (f-token) oracle
// ---------------------------------------------------------------------------

/// The body of an attestation call: a hash-method selector, carried as the
/// string `"1"` or `"2"`, and the opaque token the selector applies to.
pub struct FTokenApiBody {
    hash_method: u8,
    token: String,
}

impl FTokenApiBody {
    /// The hash-method selector, `1` or `2`.
    pub closed spec fn hash_method_spec(self) -> u8 {
        self.hash_method
    }

    /// The opaque token the oracle attests.
    pub closed spec fn token_spec(self) -> Seq<char> {
        self.token@
    }

    pub open spec fn wf(self) -> bool {
        self.hash_method_spec() == 1 || self.hash_method_spec() == 2
    }

    /// The body of the first attestation stage, applied to an account ID token.
    pub fn step_1(id_token: &str) -> (r: Self)
        ensures
            r.hash_method_spec() == 1,
            r.token_spec() == id_token@,
            r.wf(),
    {
        FTokenApiBody { hash_method: 1, token: String::from_str(id_token) }
    }

    /// The body of the second attestation stage, applied to a platform login
    /// token.
    pub fn step_2(login_token: &str) -> (r: Self)
        ensures
            r.hash_method_spec() == 2,
            r.token_spec() == login_token@,
            r.wf(),
    {
        FTokenApiBody { hash_method: 2, token: String::from_str(login_token) }
    }
}

/// An attestation token of the first stage, derived from an account ID token.
pub struct NsoFToken {
    pub f: String,
    pub timestamp: i64,
    pub request_id: String,
}

/// An attestation token of the second stage, derived from a platform login
/// token.
pub struct AppFToken {
    pub f: String,
    pub timestamp: i64,
    pub request_id: String,
}

/// The JSON body posted to the attestation oracle.
pub open spec fn f_token_body(hash_method: u8, token: Seq<u8>) -> Seq<u8> {
    "{\"hash_method\":\"".spec_bytes() + crate::encode::dec_u64(hash_method as nat)
        + "\",\"token\":\"".spec_bytes() + json_escape(token) + "\"}".spec_bytes()
}

/// Builds the request to the external attestation oracle, identified by this
/// library's own user agent rather than the mimicked client's.
pub fn f_token_request(body: &FTokenApiBody) -> (r: ApiRequest)
    requires
        body.wf(),
    ensures
        r.method == Method::Post,
        r.url@ == "https://api.imink.app/f"@,
        header_views(r.headers@) == seq![
            ("user-agent"@, "rust-nso/0.1.0"@),
            ("content-type"@, "application/json"@),
        ],
        r.body@ == f_token_body(
            body.hash_method_spec(),
            vstd::utf8::encode_utf8(body.token_spec()),
        ),
{
    let mut headers: Vec<(String, String)> = Vec::new();
    push_header(&mut headers, "user-agent", "rust-nso/0.1.0");
    push_header(&mut headers, "content-type", "application/json");
    let mut b: Vec<u8> = Vec::new();
    push_str_bytes(&mut b, "{\"hash_method\":\"");
    b.push(48 + body.hash_method);
    push_str_bytes(&mut b, "\",\"token\":\"");
    push_json_escaped(&mut b, body.token.as_str());
    push_str_bytes(&mut b, "\"}");
    proof {
        assert(crate::encode::dec_u64(body.hash_method_spec() as nat) =~= seq![
            (48 + body.hash_method_spec() as nat) as u8,
        ]);
        assert(header_views(headers@) =~= seq![
            ("user-agent"@, "rust-nso/0.1.0"@),
            ("content-type"@, "application/json"@),
        ]);
        assert(b@ =~= f_token_body(
            body.hash_method_spec(),
            vstd::utf8::encode_utf8(body.token_spec()),
        ));
    }
    ApiRequest {
        method: Method::Post,
        url: String::from_str("https://api.imink.app/f"),
        headers,
        body: b,
    }
}

/// Whether a decoded oracle response carries the three documented fields.
pub open spec fn f_token_decodable(v: FieldValue) -> bool {
    &&& str_field(v, "f"@) is Some
    &&& i64_field(v, "timestamp"@) is Some
    &&& str_field(v, "request_id"@) is Some
}

/// Builds an [`NsoFToken`] from the oracle's decoded response; a response
/// missing a field is a remote rejection.
pub fn nso_f_token_from_fields(resp: &FieldValue) -> (r: Result<NsoFToken, AuthError>)
    ensures
        r is Ok <==> f_token_decodable(*resp),
        r matches Ok(t) ==> {
            &&& Some(t.f@) == str_field(*resp, "f"@)
            &&& Some(t.timestamp) == i64_field(*resp, "timestamp"@)
            &&& Some(t.request_id@) == str_field(*resp, "request_id"@)
        },
        r matches Err(e) ==> e == AuthError::RemoteRejection,
{
    let f = match get_str_field(resp, "f") {
        Some(t) => t,
        None => { return Err(AuthError::RemoteRejection) },
    };
    let timestamp = match get_i64_field(resp, "timestamp") {
        Some(t) => t,
        None => { return Err(AuthError::RemoteRejection) },
    };
    let request_id = match get_str_field(resp, "request_id") {
        Some(t) => t,
        None => { return Err(AuthError::RemoteRejection) },
    };
    Ok(NsoFToken { f, timestamp, request_id })
}

/// Builds an [`AppFToken`] from the oracle's decoded response; a response
/// missing a field is a remote rejection.
pub fn app_f_token_from_fields(resp: &FieldValue) -> (r: Result<AppFToken, AuthError>)
    ensures
        r is Ok <==> f_token_decodable(*resp),
        r matches Ok(t) ==> {
            &&& Some(t.f@) == str_field(*resp, "f"@)
            &&& Some(t.timestamp) == i64_field(*resp, "timestamp"@)
            &&& Some(t.request_id@) == str_field(*resp, "request_id"@)
        },
        r matches Err(e) ==> e == AuthError::RemoteRejection,
{
    let f = match get_str_field(resp, "f") {
        Some(t) => t,
        None => { return Err(AuthError::RemoteRejection) },
    };
    let timestamp = match get_i64_field(resp, "timestamp") {
        Some(t) => t,
        None => { return Err(AuthError::RemoteRejection) },
    };
    let request_id = match get_str_field(resp, "request_id") {
        Some(t) => t,
        None => { return Err(AuthError::RemoteRejection) },
    };
    Ok(AppFToken { f, timestamp, request_id })
}

// ---------------------------------------------------------------------------
// Platform login
// ---------------------------------------------------------------------------

/// The headers of the platform login call. Its authorization value is the
/// bare placeholder `Bearer`: the endpoint asks for no real credential.
pub open spec fn login_token_headers() -> Seq<(Seq<char>, Seq<char>)> {
    seq![
        ("host"@, "api-lp1.znc.srv.nintendo.net"@),
        ("accept-language"@, "en-US"@),
        ("user-agent"@, "com.nintendo.znca/2.3.1, (Android/7.1.2)"@),
        ("accept"@, "application/json"@),
        ("X-ProductVersion"@, "2.3.1"@),
        ("connection"@, "Keep-Alive"@),
        ("authorization"@, "Bearer"@),
        ("X-Platform"@, "Android"@),
        ("accept-encoding"@, "gzip"@),
        ("content-type"@, "application/json"@),
    ]
}

/// The nested JSON body of the platform login call.
pub open spec fn login_token_body(
    f: Seq<u8>,
    na_id_token: Seq<u8>,
    timestamp: int,
    request_id: Seq<u8>,
    country: Seq<u8>,
    birthday: Seq<u8>,
    language: Seq<u8>,
) -> Seq<u8> {
    "{\"parameter\":{\"f\":\"".spec_bytes() + json_escape(f) + "\",\"naIdToken\":\"".spec_bytes()
        + json_escape(na_id_token) + "\",\"timestamp\":".spec_bytes() + dec_i64(timestamp)
        + ",\"requestId\":\"".spec_bytes() + json_escape(request_id)
        + "\",\"naCountry\":\"".spec_bytes() + json_escape(country)
        + "\",\"naBirthday\":\"".spec_bytes() + json_escape(birthday)
        + "\",\"language\":\"".spec_bytes() + json_escape(language) + "\"}}".spec_bytes()
}

/// Builds the request that redeems the first attestation token, the account
/// ID token and the profile fields for a platform login token.
pub fn login_token_request(f1: &NsoFToken, id_token: &str, user_info: &UserInfo) -> (r: ApiRequest)
    ensures
        r.method == Method::Post,
        r.url@ == "https://api-lp1.znc.srv.nintendo.net/v3/Account/Login"@,
        header_views(r.headers@) == login_token_headers(),
        r.body@ == login_token_body(
            vstd::utf8::encode_utf8(f1.f@),
            id_token.spec_bytes(),
            f1.timestamp as int,
            vstd::utf8::encode_utf8(f1.request_id@),
            vstd::utf8::encode_utf8(user_info.country@),
            vstd::utf8::encode_utf8(user_info.birthday@),
            vstd::utf8::encode_utf8(user_info.language@),
        ),
{
    let mut headers: Vec<(String, String)> = Vec::new();
    push_header(&mut headers, "host", "api-lp1.znc.srv.nintendo.net");
    push_header(&mut headers, "accept-language", "en-US");
    push_header(&mut headers, "user-agent", "com.nintendo.znca/2.3.1, (Android/7.1.2)");
    push_header(&mut headers, "accept", "application/json");
    push_header(&mut headers, "X-ProductVersion", "2.3.1");
    push_header(&mut headers, "connection", "Keep-Alive");
    push_header(&mut headers, "authorization", "Bearer");
    push_header(&mut headers, "X-Platform", "Android");
    push_header(&mut headers, "accept-encoding", "gzip");
    push_header(&mut headers, "content-type", "application/json");
    let mut body: Vec<u8> = Vec::new();
    push_str_bytes(&mut body, "{\"parameter\":{\"f\":\"");
    push_json_escaped(&mut body, f1.f.as_str());
    push_str_bytes(&mut body, "\",\"naIdToken\":\"");
    push_json_escaped(&mut body, id_token);
    push_str_bytes(&mut body, "\",\"timestamp\":");
    push_i64_digits(&mut body, f1.timestamp);
    push_str_bytes(&mut body, ",\"requestId\":\"");
    push_json_escaped(&mut body, f1.request_id.as_str());
    push_str_bytes(&mut body, "\",\"naCountry\":\"");
    push_json_escaped(&mut body, user_info.country.as_str());
    push_str_bytes(&mut body, "\",\"naBirthday\":\"");
    push_json_escaped(&mut body, user_info.birthday.as_str());
    push_str_bytes(&mut body, "\",\"language\":\"");
    push_json_escaped(&mut body, user_info.language.as_str());
    push_str_bytes(&mut body, "\"}}");
    proof {
        assert(header_views(headers@) =~= login_token_headers());
        assert(body@ =~= login_token_body(
            vstd::utf8::encode_utf8(f1.f@),
            id_token.spec_bytes(),
            f1.timestamp as int,
            vstd::utf8::encode_utf8(f1.request_id@),
            vstd::utf8::encode_utf8(user_info.country@),
            vstd::utf8::encode_utf8(user_info.birthday@),
            vstd::utf8::encode_utf8(user_info.language@),
        ));
    }
    ApiRequest {
        method: Method::Post,
        url: String::from_str("https://api-lp1.znc.srv.nintendo.net/v3/Account/Login"),
        headers,
        body,
    }
}

/// The innermost access token of a login response:
/// `result.webApiServerCredential.accessToken`.
pub open spec fn login_token_of(v: FieldValue) -> Option<Seq<char>> {
    match field_of(v, "result"@) {
        Some(r1) => match field_of(r1, "webApiServerCredential"@) {
            Some(r2) => str_field(r2, "accessToken"@),
            None => None,
        },
        None => None,
    }
}

/// Takes the nested access token out of a decoded login response, discarding
/// every sibling field; a response without it is a remote rejection.
pub fn extract_login_token(resp: &FieldValue) -> (r: Result<String, AuthError>)
    ensures
        r is Ok <==> login_token_of(*resp) is Some,
        r matches Ok(t) ==> Some(t@) == login_token_of(*resp),
        r matches Err(e) ==> e == AuthError::RemoteRejection,
{
    match get_field(resp, "result") {
        Some(r1) => match get_field(r1, "webApiServerCredential") {
            Some(r2) => match get_str_field(r2, "accessToken") {
                Some(t) => Ok(t),
                None => Err(AuthError::RemoteRejection),
            },
            None => Err(AuthError::RemoteRejection),
        },
        None => Err(AuthError::RemoteRejection),
    }
}

} // verus!
