//! Record ids of the category store, parsed by SurrealDB.
use std::str::FromStr;
use vstd::prelude::*;

verus! {

/// A SurrealDB record id (`table:key`), as the store's client takes it.
#[verifier::external_type_specification]
#[verifier::external_body]
pub struct ExThing(surrealdb::sql::Thing);

/// The record id that SurrealDB's record-id parser makes of the text, or none
/// when its syntax does not accept the text.
pub uninterp spec fn parsed_record(text: Seq<char>) -> Option<surrealdb::sql::Thing>;

/// Calls `<surrealdb::sql::Thing as FromStr>::from_str`, which runs SurrealDB's
/// record-id parser on the text and fails on text it does not accept. The
/// contract claims that the outcome, the parsed id included, is a function of
/// the text alone; what the grammar accepts and which record it names are left
/// to the name `parsed_record`.
#[verifier::external_body]
pub(crate) fn parse_record_id(text: &str) -> (r: Option<surrealdb::sql::Thing>)
    ensures
        r == parsed_record(text@),
{
    surrealdb::sql::Thing::from_str(text).ok()
}

} // verus!
