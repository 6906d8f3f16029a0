use vstd::prelude::*;
use vstd::view::View as _;

use crate::error::HttpError;
use crate::http::{authed_request, url, url_of, url_with_id, valid_header_value, Method, Request};
use crate::hydra::{Search, View};

verus! {

/// A page of full messages with the collection's total count.
#[derive(Debug, Clone, PartialEq)]
pub struct Messages {
    pub messages: Vec<Message>,
    pub total_items: i64,
    pub view: Option<View>,
    pub search: Option<Search>,
}

/// A message in full: headers, text and HTML bodies, attachments and
/// bookkeeping. Lists of recipients, verification results and attachments
/// that the library does not interpret are kept as JSON values.
#[derive(Debug, Clone, PartialEq)]
pub struct Message {
    pub context: String,
    pub id: String,
    pub type_field: String,
    pub id2: String,
    pub account_id: String,
    pub msg_id: String,
    pub from: From,
    pub to: Vec<To>,
    pub cc: Vec<serde_json::Value>,
    pub bcc: Vec<serde_json::Value>,
    pub subject: String,
    pub seen: bool,
    pub flagged: bool,
    pub verification_results: Vec<serde_json::Value>,
    pub retention: bool,
    pub retention_date: i64,
    pub text: String,
    pub html: Vec<String>,
    pub has_attachments: bool,
    pub attachments: Vec<serde_json::Value>,
    pub download_url: String,
    pub size: i64,
    pub created_at: String,
    pub updated_at: String,
}

/// The sender of a message.
#[derive(Debug, Clone, PartialEq)]
pub struct From {
    pub address: String,
    pub name: String,
}

/// A recipient of a message.
#[derive(Debug, Clone, PartialEq)]
pub struct To {
    pub address: String,
    pub name: String,
}

/// The request that lists the messages of the token's account, one page of
/// message summaries: a GET of `/messages`, with the `page` query parameter
/// when one is given, authenticated with `token`.
pub fn messages_request(token: &str, page: Option<usize>) -> (r: Result<Request, HttpError>)
    ensures
        r is Ok <==> valid_header_value(token@),
        r matches Err(e) ==> e == HttpError::InvalidHeader,
        r matches Ok(q) ==> q.method == Method::Get && q.url@ == url_of("/messages"@) && q.page
            == page && q.body is None && q.client@ == Some(token@),
{
    authed_request(Method::Get, url("/messages"), page, token)
}

/// The request that fetches the message with id `id`: a GET of
/// `/messages/{id}` authenticated with `token`.
pub fn get_request(token: &str, id: &str) -> (r: Result<Request, HttpError>)
    ensures
        r is Ok <==> valid_header_value(token@),
        r matches Err(e) ==> e == HttpError::InvalidHeader,
        r matches Ok(q) ==> q.method == Method::Get && q.url@ == url_of("/messages/"@ + id@)
            && q.page is None && q.body is None && q.client@ == Some(token@),
{
    authed_request(Method::Get, url_with_id("/messages/", id), None, token)
}

/// The request that deletes the message with id `id`: a DELETE of
/// `/messages/{id}` authenticated with `token`.
pub fn delete_request(token: &str, id: &str) -> (r: Result<Request, HttpError>)
    ensures
        r is Ok <==> valid_header_value(token@),
        r matches Err(e) ==> e == HttpError::InvalidHeader,
        r matches Ok(q) ==> q.method == Method::Delete && q.url@ == url_of("/messages/"@ + id@)
            && q.page is None && q.body is None && q.client@ == Some(token@),
{
    authed_request(Method::Delete, url_with_id("/messages/", id), None, token)
}

} // verus!
