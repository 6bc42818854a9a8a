//! The shape of one HTTP exchange of the pipeline, as data: method, URL,
//! headers and body, all of them plain values whose exact content the
//! builders' contracts pin down. Sending the request is the caller's job.

use vstd::prelude::*;

verus! {

/// The HTTP method of a pipeline request.
#[derive(Clone, Copy, Debug, PartialEq, Eq, Structural)]
pub enum Method {
    Get,
    Post,
}

/// One fully-assembled request of the token-exchange pipeline.
///
/// The remote services accept a request only when its headers and body match
/// the mimicked client byte for byte, so the builders state both exactly.
pub struct ApiRequest {
    pub method: Method,
    pub url: String,
    /// Header names and values, in the order the mimicked client sends them.
    pub headers: Vec<(String, String)>,
    /// The request body; empty for GET requests and bodyless POSTs.
    pub body: Vec<u8>,
}

/// The headers as character sequences, for contracts.
pub open spec fn header_views(h: Seq<(String, String)>) -> Seq<(Seq<char>, Seq<char>)> {
    h.map_values(|p: (String, String)| (p.0@, p.1@))
}

/// Appends one header with a literal value.
pub fn push_header(h: &mut Vec<(String, String)>, name: &str, value: &str)
    ensures
        header_views(final(h)@) == header_views(old(h)@).push((name@, value@)),
{
    h.push((String::from_str(name), String::from_str(value)));
    proof {
        assert(header_views(h@) =~= header_views(old(h)@).push((name@, value@)));
    }
}

/// Appends one header whose value was computed, such as a bearer credential.
pub fn push_header_owned(h: &mut Vec<(String, String)>, name: &str, value: String)
    ensures
        header_views(final(h)@) == header_views(old(h)@).push((name@, value@)),
{
    h.push((String::from_str(name), value));
    proof {
        assert(header_views(h@) =~= header_views(old(h)@).push((name@, value@)));
    }
}

/// The `Bearer` authorization value for a token.
pub open spec fn bearer_value(token: Seq<char>) -> Seq<char> {
    "Bearer "@ + token
}

pub fn make_bearer(token: &str) -> (r: String)
    ensures
        r@ == bearer_value(token@),
{
    let mut s = String::from_str("Bearer ");
    s.append(token);
    s
}

/// The cookie value carrying a game web token: `_dnt=0;_gtoken=<token>`.
pub open spec fn gtoken_cookie(token: Seq<char>) -> Seq<char> {
    "_dnt=0;_gtoken="@ + token
}

pub fn make_gtoken_cookie(token: &str) -> (r: String)
    ensures
        r@ == gtoken_cookie(token@),
{
    let mut s = String::from_str("_dnt=0;_gtoken=");
    s.append(token);
    s
}

} // verus!
