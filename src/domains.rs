use vstd::prelude::*;

use crate::http::{url, url_of, Client, Method, Request};
use crate::hydra::HydraCollection;

verus! {

/// A mail domain under which accounts can be created.
#[derive(Debug, Clone, PartialEq)]
pub struct Domain {
    pub id: String,
    pub type_field: String,
    pub context: Option<String>,
    pub id2: String,
    pub domain: String,
    pub is_active: bool,
    pub is_private: bool,
    pub created_at: String,
    pub updated_at: String,
}

impl HydraCollection<Domain> {
    /// The domain names of this page, in order.
    pub fn as_list(&self) -> (r: Vec<String>)
        ensures
            r@.len() == self.members@.len(),
            forall|i: int| 0 <= i < r@.len() ==> #[trigger] r@[i]@ == self.members@[i].domain@,
    {
        let mut r: Vec<String> = Vec::new();
        let mut i: usize = 0;
        while i < self.members.len()
            invariant
                i <= self.members@.len(),
                r@.len() == i,
                forall|j: int| 0 <= j < i ==> #[trigger] r@[j]@ == self.members@[j].domain@,
            decreases self.members@.len() - i,
        {
            r.push(self.members[i].domain.clone());
            i += 1;
        }
        r
    }
}

/// The request that lists the available domains: an unauthenticated GET
/// of `/domains`.
pub fn domains_request() -> (r: Request)
    ensures
        r.method == Method::Get,
        r.url@ == url_of("/domains"@),
        r.page is None,
        r.body is None,
        r.client@ is None,
{
    Request { method: Method::Get, url: url("/domains"), page: None, body: None, client: Client::new() }
}

} // verus!
