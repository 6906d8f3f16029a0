use vstd::prelude::*;

use crate::http::{url, url_of, Client, Method, Request};
use crate::json::{credentials_body, credentials_json};
use crate::accounts::create_body;
use crate::user::{address_of, User};

verus! {

/// A bearer token issued by the service, and the id of the account it
/// belongs to.
#[derive(Debug, Clone, PartialEq)]
pub struct Token {
    pub token: String,
    pub id: String,
}

/// The lower-case form of `s`, as Rust's `str::to_lowercase` gives it.
pub uninterp spec fn lower_of(s: Seq<char>) -> Seq<char>;

/// Relies on str::to_lowercase: the result depends on the characters of
/// `s` alone.
#[verifier::external_body]
fn lowercase(s: &str) -> (r: String)
    ensures
        r@ == lower_of(s@),
{
    s.to_lowercase()
}

/// The body of the request that obtains a token for `user`: its address
/// in lower case and its password.
pub open spec fn token_body(user: User) -> Seq<char> {
    credentials_json(lower_of(address_of(user.id@, user.domain@)), user.password@)
}

/// The request that obtains a token for the credentials `address` and
/// `password`: an unauthenticated POST of both to `/token`.
pub fn token_request_for(address: &str, password: &str) -> (r: Request)
    ensures
        r.method == Method::Post,
        r.url@ == url_of("/token"@),
        r.page is None,
        r.body matches Some(b) && b@ == credentials_json(address@, password@),
        r.client@ is None,
{
    Request {
        method: Method::Post,
        url: url("/token"),
        page: None,
        body: Some(credentials_body(address, password)),
        client: Client::new(),
    }
}

/// The request that obtains a token for `user`, whose address is sent in
/// lower case.
pub fn token_request(user: &User) -> (r: Request)
    ensures
        r.method == Method::Post,
        r.url@ == url_of("/token"@),
        r.page is None,
        r.body matches Some(b) && b@ == token_body(*user),
        r.client@ is None,
{
    let address = lowercase(user.address().as_str());
    token_request_for(address.as_str(), user.password.as_str())
}

/// The token request repeats the credentials of the account request: the
/// same password, and the address in lower case. So for a user whose
/// address is already in lower case both requests send the same body.
pub proof fn lemma_token_request_repeats_credentials(user: User)
    ensures
        token_body(user) == credentials_json(
            lower_of(address_of(user.id@, user.domain@)),
            user.password@,
        ),
        create_body(user) == credentials_json(address_of(user.id@, user.domain@), user.password@),
        lower_of(address_of(user.id@, user.domain@)) == address_of(user.id@, user.domain@)
            ==> token_body(user) == create_body(user),
{
}

} // verus!
