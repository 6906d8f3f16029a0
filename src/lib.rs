//! Client library for the mail.tm disposable-mailbox REST API.
//!
//! The library describes every call the service offers as a plain
//! [`http::Request`] value, classifies the service's answers and models the
//! records it returns. Performing the requests over the network is left to
//! the caller.
use vstd::prelude::*;

pub mod accounts;
pub mod domains;
pub mod error;
pub mod http;
pub mod hydra;
pub mod inspect;
pub mod json;
pub mod list;
pub mod messages;
pub mod token;
pub mod text;
pub mod user;

use crate::user::User;

verus! {

/// The same user, now holding `token` as its bearer token.
pub fn update_token(user: &User, token: &str) -> (r: User)
    ensures
        r.email_token@ == token@,
        r.id == user.id,
        r.domain == user.domain,
        r.password == user.password,
{
    User {
        id: user.id.clone(),
        domain: user.domain.clone(),
        password: user.password.clone(),
        email_token: token.to_string(),
    }
}

} // verus!
