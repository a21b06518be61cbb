//! The objects of the GraphQL interface.
use vstd::prelude::*;

verus! {

/// Relay-compliant connection parameters to page results by cursor/page size.
pub struct Params {
    pub after: Option<String>,
    pub before: Option<String>,
    pub first: Option<i32>,
    pub last: Option<i32>,
}

impl Params {
    pub fn new(
        after: Option<String>,
        before: Option<String>,
        first: Option<i32>,
        last: Option<i32>,
    ) -> (p: Params)
        ensures
            p.after == after,
            p.before == before,
            p.first == first,
            p.last == last,
    {
        Params { after, before, first, last }
    }
}

/// The kind of change a subscriber is told of.
#[derive(PartialEq, Eq, Structural, Copy, Clone)]
pub enum MutationType {
    Created,
    Deleted,
    Updated,
}

/// A change to one category, as subscribers are told of it.
pub struct CategoryChanged {
    pub mutation_type: MutationType,
    pub id: String,
}

/// The category fields of the query root.
#[derive(Default)]
pub struct CategoryQuery;

/// The category fields of the mutation root.
#[derive(Default)]
pub struct CategoryMutation;

/// The query root.
#[derive(Default)]
pub struct Query(pub CategoryQuery);

/// The mutation root.
#[derive(Default)]
pub struct Mutation(pub CategoryMutation);

} // verus!
