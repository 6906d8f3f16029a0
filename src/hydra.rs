use rand::Rng;
use vstd::prelude::*;
use vstd::view::View as _;

verus! {

/// A page of a collection as the service returns it: the members of this
/// page in the service's order, the number of items in the whole
/// collection, and optional paging and search descriptions. `total_items`
/// counts the whole collection and need not equal `members.len()`.
#[derive(Debug, Clone, PartialEq)]
pub struct HydraCollection<T> {
    pub members: Vec<T>,
    pub total_items: i64,
    pub view: Option<View>,
    pub search: Option<Search>,
}

/// Links to the first, last and next pages of a collection.
#[derive(Debug, Clone, PartialEq)]
pub struct View {
    pub id: String,
    pub type_field: String,
    pub first: String,
    pub last: String,
    pub next: String,
}

/// The URL template by which a collection can be searched.
#[derive(Debug, Clone, PartialEq)]
pub struct Search {
    pub type_field: String,
    pub template: String,
    pub variable_representation: String,
    pub mapping: Vec<Mapping>,
}

/// One variable of a search template and the property it stands for.
#[derive(Debug, Clone, PartialEq)]
pub struct Mapping {
    pub type_field: String,
    pub variable: String,
    pub property: String,
    pub required: bool,
}

/// Relies on rand's `thread_rng().gen_range(0..n)`: a number below `n`,
/// for `n > 0` (it panics on an empty range).
#[verifier::external_body]
fn random_below(n: usize) -> (r: usize)
    requires
        n > 0,
    ensures
        r < n,
{
    rand::thread_rng().gen_range(0..n)
}

impl<T> HydraCollection<T> {
    /// A collection page holding `members`, of a collection of
    /// `total_items` items.
    pub fn new(members: Vec<T>, total_items: i64) -> (r: HydraCollection<T>)
        ensures
            r.members@ == members@,
            r.total_items == total_items,
            r.view is None,
            r.search is None,
    {
        HydraCollection { members, total_items, view: None, search: None }
    }

    /// The member at `index` on this page, if there is one.
    pub fn member_at(&self, index: usize) -> (r: Option<&T>)
        ensures
            index < self.members@.len() ==> r == Some(&self.members@[index as int]),
            index >= self.members@.len() ==> r is None,
    {
        if index < self.members.len() {
            Some(&self.members[index])
        } else {
            None
        }
    }

    /// A member of this page picked at random; `None` when the page is
    /// empty.
    pub fn any(&self) -> (r: Option<&T>)
        ensures
            r is None <==> self.members@.len() == 0,
            r matches Some(m) ==> self.members@.contains(*m),
    {
        if self.members.len() == 0 {
            return None;
        }
        let i = random_below(self.members.len());
        let r = self.member_at(i);
        r
    }
}

} // verus!
