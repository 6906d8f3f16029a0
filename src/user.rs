use rand::distributions::Alphanumeric;
use rand::Rng;
use vstd::prelude::*;

verus! {

/// Credentials of one mailbox: the local part of the address, its domain,
/// the password and, once obtained, the bearer token issued by the service.
#[derive(Debug, Clone, PartialEq)]
pub struct User {
    pub id: String,
    pub domain: String,
    pub password: String,
    pub email_token: String,
}

/// The mailbox address `id@domain` of a user.
pub open spec fn address_of(id: Seq<char>, domain: Seq<char>) -> Seq<char> {
    id + seq!['@'] + domain
}

/// An ASCII letter or digit.
pub open spec fn is_alphanumeric(c: char) -> bool {
    (48 <= (c as int) <= 57) || (65 <= (c as int) <= 90) || (97 <= (c as int) <= 122)
}

/// `s` has `len` characters, each an ASCII letter or digit.
pub open spec fn alphanumeric_of_len(s: Seq<char>, len: nat) -> bool {
    s.len() == len && forall|i: int| 0 <= i < s.len() ==> is_alphanumeric(#[trigger] s[i])
}

impl User {
    /// A user with the given local part, password and domain, and no token yet.
    pub fn new(email: &str, password: &str, domain: &str) -> (r: User)
        ensures
            r.id@ == email@,
            r.password@ == password@,
            r.domain@ == domain@,
            r.email_token@ == Seq::<char>::empty(),
    {
        User {
            id: email.to_string(),
            domain: domain.to_string(),
            password: password.to_string(),
            email_token: String::new(),
        }
    }

    /// The same user with its domain replaced.
    pub fn with_domain(self, domain: &str) -> (r: User)
        ensures
            r.domain@ == domain@,
            r.id == self.id,
            r.password == self.password,
            r.email_token == self.email_token,
    {
        User { domain: domain.to_string(), ..self }
    }

    /// Relies on rand's Alphanumeric distribution drawn from `thread_rng`:
    /// `len` characters, each an ASCII letter or digit.
    #[verifier::external_body]
    fn get_random_string(len: usize) -> (r: String)
        ensures
            alphanumeric_of_len(r@, len as nat),
    {
        rand::thread_rng().sample_iter(&Alphanumeric).take(len).map(char::from).collect()
    }

    /// The address `id@domain` of this user.
    pub fn address(&self) -> (r: String)
        ensures
            r@ == address_of(self.id@, self.domain@),
    {
        let mut r = self.id.clone();
        r.append("@");
        r.append(self.domain.as_str());
        proof {
            reveal_strlit("@");
        }
        r
    }
}

impl Default for User {
    /// A fresh user with a random ten-character local part, a random
    /// thirteen-character password, no domain and no token.
    fn default() -> (r: User)
        ensures
            alphanumeric_of_len(r.id@, 10),
            alphanumeric_of_len(r.password@, 13),
            r.domain@ == Seq::<char>::empty(),
            r.email_token@ == Seq::<char>::empty(),
    {
        User {
            id: User::get_random_string(10),
            password: User::get_random_string(13),
            email_token: String::new(),
            domain: String::new(),
        }
    }
}

} // verus!
