use reqwest::header::{HeaderValue, InvalidHeaderValue};
use vstd::prelude::*;

use crate::error::HttpError;

verus! {

/// Base URL of the service.
pub const MAIL_API_URL: &'static str = "https://api.mail.tm";

/// User agent sent with every request.
pub const USER_AGENT: &'static str = "Reqwest; mail-tm-rs";

/// Origin sent with every request.
pub const ORIGIN: &'static str = "https://mail.tm";

/// Content type of every request body.
pub const CONTENT_TYPE: &'static str = "application/json;charset=utf-8";

/// reqwest's header value (from the http crate), carried opaquely.
#[verifier::external_type_specification]
#[verifier::external_body]
pub struct ExHeaderValue(HeaderValue);

/// The error of a rejected header value, carried opaquely.
#[verifier::external_type_specification]
#[verifier::external_body]
pub struct ExInvalidHeaderValue(InvalidHeaderValue);

/// A character that a header value may hold: a tab, or anything from the
/// space upwards except DEL. A character outside ASCII is sent as bytes of
/// 128 and above, all of which a header value may hold.
pub open spec fn header_char(c: char) -> bool {
    c == '\t' || (32 <= (c as int) && (c as int) != 127)
}

/// Every character of `s` may stand in a header value.
pub open spec fn valid_header_value(s: Seq<char>) -> bool {
    forall|i: int| 0 <= i < s.len() ==> header_char(#[trigger] s[i])
}

/// The value of the `Authorization` header for a bearer token.
pub open spec fn bearer(token: Seq<char>) -> Seq<char> {
    "Bearer "@ + token
}

/// `Bearer <token>` can stand in a header exactly when the token can.
pub proof fn lemma_bearer_valid(token: Seq<char>)
    ensures
        valid_header_value(bearer(token)) <==> valid_header_value(token),
{
    reveal_strlit("Bearer ");
    let b = bearer(token);
    assert(forall|i: int| 0 <= i < 7 ==> header_char(#[trigger] b[i]));
    if valid_header_value(token) {
        assert forall|i: int| 0 <= i < b.len() implies header_char(#[trigger] b[i]) by {
            if i >= 7 {
                assert(b[i] == token[i - 7]);
            }
        }
    }
    if valid_header_value(b) {
        assert forall|i: int| 0 <= i < token.len() implies header_char(#[trigger] token[i]) by {
            assert(b[i + 7] == token[i]);
        }
    }
}

/// Relies on reqwest's HeaderValue::from_str (from the http crate): it
/// accepts the text exactly when every byte of it is a tab or lies in
/// 32..=255 other than 127.
#[verifier::external_body]
fn parse_header_value(s: &str) -> (r: Result<HeaderValue, InvalidHeaderValue>)
    ensures
        r is Ok <==> valid_header_value(s@),
{
    HeaderValue::from_str(s)
}

/// One request header: its name and its value.
#[derive(Debug, Clone, PartialEq)]
pub struct Header {
    pub name: String,
    pub value: String,
}

/// The header named `name` with value `value`.
pub open spec fn header_is(h: Header, name: Seq<char>, value: Seq<char>) -> bool {
    h.name@ == name && h.value@ == value
}

/// The headers that every request carries, in this order.
pub open spec fn fixed_headers_are(hs: Seq<Header>) -> bool {
    &&& hs.len() == 4
    &&& header_is(hs[0], "User-Agent"@, USER_AGENT@)
    &&& header_is(hs[1], "Origin"@, ORIGIN@)
    &&& header_is(hs[2], "TE"@, "Trailers"@)
    &&& header_is(hs[3], "Content-Type"@, CONTENT_TYPE@)
}

fn header(name: &str, value: &str) -> (r: Header)
    ensures
        header_is(r, name@, value@),
{
    Header { name: name.to_string(), value: value.to_string() }
}

/// The headers that every request carries: user agent, origin, transfer
/// coding and JSON content type.
pub fn get_headers() -> (r: Vec<Header>)
    ensures
        fixed_headers_are(r@),
{
    let mut r: Vec<Header> = Vec::new();
    r.push(header("User-Agent", USER_AGENT));
    r.push(header("Origin", ORIGIN));
    r.push(header("TE", "Trailers"));
    r.push(header("Content-Type", CONTENT_TYPE));
    r
}

/// How a request is to be sent: the fixed headers, and a bearer token when
/// the request is authenticated.
#[derive(Debug, Clone, PartialEq)]
pub struct Client {
    token: Option<String>,
}

impl View for Client {
    type V = Option<Seq<char>>;

    /// The bearer token the client authenticates with, if any.
    closed spec fn view(&self) -> Option<Seq<char>> {
        match self.token {
            Some(t) => Some(t@),
            None => None,
        }
    }
}

impl Client {
    /// A client that sends the fixed headers and no authorization.
    pub fn new() -> (r: Client)
        ensures
            r@ is None,
    {
        Client { token: None }
    }

    /// The same client, authenticating with `token`; fails when the header
    /// `Bearer <token>` cannot be formed.
    pub fn with_auth(self, token: &str) -> (r: Result<Client, HttpError>)
        ensures
            r is Ok <==> valid_header_value(token@),
            r matches Ok(c) ==> c@ == Some(token@),
            r matches Err(e) ==> e == HttpError::InvalidHeader,
    {
        let mut value = String::from_str("Bearer ");
        value.append(token);
        proof {
            lemma_bearer_valid(token@);
        }
        match parse_header_value(value.as_str()) {
            Ok(_) => Ok(Client { token: Some(token.to_string()) }),
            Err(_) => Err(HttpError::InvalidHeader),
        }
    }

    /// The headers this client sends: the fixed ones, then `Authorization`
    /// when it holds a token.
    pub fn headers(&self) -> (r: Vec<Header>)
        ensures
            fixed_headers_are(r@.subrange(0, 4)),
            self@ is None ==> r@.len() == 4,
            self@ matches Some(t) ==> r@.len() == 5 && header_is(
                r@[4],
                "Authorization"@,
                bearer(t),
            ),
    {
        let mut r = get_headers();
        match &self.token {
            Some(t) => {
                let mut value = String::from_str("Bearer ");
                value.append(t.as_str());
                r.push(Header { name: String::from_str("Authorization"), value });
            },
            None => {},
        }
        r
    }
}

/// Classifies an answer of the service by its status code.
pub fn check_response_status(status: u16, res: &str) -> (r: Result<(), HttpError>)
    ensures
        r is Ok <==> 200 <= status < 300,
        r matches Err(e) ==> e matches HttpError::Status(code, body) && code == status && body@
            == res@,
{
    if status < 200 || status >= 300 {
        return Err(HttpError::Status(status, res.to_string()));
    }
    Ok(())
}

/// The HTTP method of a request.
#[derive(Debug, Clone, Copy, PartialEq, Eq)]
pub enum Method {
    Get,
    Post,
    Delete,
}

/// A request to the service, ready to be sent: method, full URL, the
/// `page` query parameter if any, the JSON body if any, and the client
/// whose headers go with it.
#[derive(Debug, Clone, PartialEq)]
pub struct Request {
    pub method: Method,
    pub url: String,
    pub page: Option<usize>,
    pub body: Option<String>,
    pub client: Client,
}

/// A request without body, authenticated with `token`, or
/// `HttpError::InvalidHeader` when the token cannot stand in a header.
pub fn authed_request(method: Method, url: String, page: Option<usize>, token: &str) -> (r: Result<
    Request,
    HttpError,
>)
    ensures
        r is Ok <==> valid_header_value(token@),
        r matches Err(e) ==> e == HttpError::InvalidHeader,
        r matches Ok(q) ==> q.method == method && q.url@ == url@ && q.page == page
            && q.body is None && q.client@ == Some(token@),
{
    let client = Client::new().with_auth(token)?;
    Ok(Request { method, url, page, body: None, client })
}

/// The URL of `path` on the service.
pub open spec fn url_of(path: Seq<char>) -> Seq<char> {
    MAIL_API_URL@ + path
}

/// The URL of `path` on the service.
pub fn url(path: &str) -> (r: String)
    ensures
        r@ == url_of(path@),
{
    let mut r = String::from_str(MAIL_API_URL);
    r.append(path);
    r
}

/// The URL of `path` followed by `id`, as in `/accounts/{id}`.
pub fn url_with_id(path: &str, id: &str) -> (r: String)
    ensures
        r@ == url_of(path@ + id@),
{
    let mut r = url(path);
    r.append(id);
    assert(r@ =~= url_of(path@ + id@));
    r
}

} // verus!
