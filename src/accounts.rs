use vstd::prelude::*;

use crate::error::HttpError;
use crate::http::{authed_request, url, url_of, url_with_id, valid_header_value, Client, Method, Request};
use crate::json::{credentials_body, credentials_json};
use crate::user::{address_of, User};

verus! {

/// A mailbox account as the service describes it. The service alone sets
/// quota, usage, timestamps and the linked-data fields; a timestamp is the
/// service's date text, `None` when absent.
#[derive(Debug, Clone, PartialEq)]
pub struct Account {
    pub address: String,
    pub password: Option<String>,
    pub quota: i64,
    pub used: i64,
    pub is_disabled: bool,
    pub created_at: Option<String>,
    pub updated_at: Option<String>,
    pub context: Option<String>,
    pub at_id: Option<String>,
    pub type_field: Option<String>,
    pub id: Option<String>,
}

impl Account {
    /// The account a user asks for: address `id@domain`, the user's
    /// password, nothing used and nothing assigned by the service yet.
    pub fn from_user(user: &User) -> (r: Account)
        ensures
            r.address@ == address_of(user.id@, user.domain@),
            r.password matches Some(p) && p@ == user.password@,
            r.quota == 0,
            r.used == 0,
            !r.is_disabled,
            r.created_at is None,
            r.updated_at is None,
            r.context is None,
            r.at_id is None,
            r.type_field is None,
            r.id is None,
    {
        Account {
            address: user.address(),
            password: Some(user.password.clone()),
            quota: 0,
            used: 0,
            is_disabled: false,
            created_at: None,
            updated_at: None,
            context: None,
            at_id: None,
            type_field: None,
            id: None,
        }
    }
}

/// The body of the request that creates the account of `user`.
pub open spec fn create_body(user: User) -> Seq<char> {
    credentials_json(address_of(user.id@, user.domain@), user.password@)
}

/// The request that creates the account of `user`: an unauthenticated POST
/// of its address and password to `/accounts`.
pub fn create_request(user: &User) -> (r: Request)
    ensures
        r.method == Method::Post,
        r.url@ == url_of("/accounts"@),
        r.page is None,
        r.body matches Some(b) && b@ == create_body(*user),
        r.client@ is None,
{
    let address = user.address();
    let body = credentials_body(address.as_str(), user.password.as_str());
    Request {
        method: Method::Post,
        url: url("/accounts"),
        page: None,
        body: Some(body),
        client: Client::new(),
    }
}

/// The request that fetches the account with id `id`: a GET of
/// `/accounts/{id}` authenticated with `token`.
pub fn get_request(token: &str, id: &str) -> (r: Result<Request, HttpError>)
    ensures
        r is Ok <==> valid_header_value(token@),
        r matches Err(e) ==> e == HttpError::InvalidHeader,
        r matches Ok(q) ==> q.method == Method::Get && q.url@ == url_of("/accounts/"@ + id@)
            && q.page is None && q.body is None && q.client@ == Some(token@),
{
    authed_request(Method::Get, url_with_id("/accounts/", id), None, token)
}

/// The request that deletes the account with id `id`: a DELETE of
/// `/accounts/{id}` authenticated with `token`.
pub fn delete_request(token: &str, id: &str) -> (r: Result<Request, HttpError>)
    ensures
        r is Ok <==> valid_header_value(token@),
        r matches Err(e) ==> e == HttpError::InvalidHeader,
        r matches Ok(q) ==> q.method == Method::Delete && q.url@ == url_of("/accounts/"@ + id@)
            && q.page is None && q.body is None && q.client@ == Some(token@),
{
    authed_request(Method::Delete, url_with_id("/accounts/", id), None, token)
}

/// The request that fetches the account the token belongs to: a GET of
/// `/me` authenticated with `token`.
pub fn me_request(token: &str) -> (r: Result<Request, HttpError>)
    ensures
        r is Ok <==> valid_header_value(token@),
        r matches Err(e) ==> e == HttpError::InvalidHeader,
        r matches Ok(q) ==> q.method == Method::Get && q.url@ == url_of("/me"@) && q.page is None
            && q.body is None && q.client@ == Some(token@),
{
    authed_request(Method::Get, url("/me"), None, token)
}

} // verus!
