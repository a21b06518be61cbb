//! The operations of the category store: each gives the plan that the
//! store's connections carry out.
use crate::cache_key::{key_text, CacheKeyView};
use crate::category::{insert_of, Category};
use crate::read::{
    category_table, sub_categories_statement, ItemRead, ListRead, ListSourceView,
};
use crate::record_id::{parse_record_id, parsed_record};
use crate::write::{bad_id_message, plan_delete, plan_update, CreatePlan, DeletePlan, UpdatePlan};
use vstd::prelude::*;

verus! {

/// Reads of categories.
pub trait Query {
    /// How long, in seconds, the entries that reads write back live.
    spec fn ttl(&self) -> usize;

    /// Every category, cached under "categories:all".
    fn get_categories(&self) -> (r: ListRead)
        ensures
            r.key@ == key_text(CacheKeyView::AllCategories),
            r.source@ == ListSourceView::Table(category_table()),
            r.ttl == self.ttl(),
    ;

    /// The children of `parent_id`, or every category when it is none.
    fn get_sub_categories(&self, parent_id: Option<&str>) -> (r: ListRead)
        ensures
            r.key@ == key_text(CacheKeyView::SubCategories(match parent_id {
                Some(p) => p@,
                None => Seq::empty(),
            })),
            r.source@ == ListSourceView::Statement(sub_categories_statement(match parent_id {
                Some(p) => Some(p@),
                None => None,
            })),
            r.ttl == self.ttl(),
    ;

    /// The category `id`, cached under its own key.
    fn get_category_by_id(&self, id: &str) -> (r: ItemRead)
        ensures
            r.id@ == id@,
            r.key@ == key_text(CacheKeyView::Category(id@)),
            r.ttl == self.ttl(),
    ;
}

/// Changes to categories.
pub trait Mutation {
    /// Creates `content` in the category table.
    fn create_category(&self, content: Category) -> (p: CreatePlan)
        ensures
            p.table@ == category_table(),
            p.insert == insert_of(content),
            p.insert.name == content.name,
            p.insert.sub_categories == content.sub_categories,
            p.insert.image_url == content.image_url,
            p.insert.is_root == content.is_root,
    ;

    /// Replaces category `id` by `content`; an id that is no record id is refused.
    fn update_category(&self, id: &str, content: Category) -> (r: Result<UpdatePlan, String>)
        ensures
            r is Ok <==> parsed_record(id@) is Some,
            r matches Ok(p) ==> p.pending.id@ == id@ && parsed_record(id@) == Some(p.record)
                && p.insert == insert_of(content) && p.insert.name == content.name
                && p.insert.sub_categories == content.sub_categories && p.insert.image_url
                == content.image_url && p.insert.is_root == content.is_root,
            r matches Err(m) ==> m@ == bad_id_message(),
    ;

    /// Deletes category `id`; an id that is no record id is refused.
    fn delete_category(&self, id: &str) -> (r: Result<DeletePlan, String>)
        ensures
            r is Ok <==> parsed_record(id@) is Some,
            r matches Ok(p) ==> p.pending.id@ == id@ && parsed_record(id@) == Some(p.record),
            r matches Err(m) ==> m@ == bad_id_message(),
    ;
}

/// The category store's own decisions, apart from the connections that carry
/// them out: how long the cache entries it writes live.
pub struct CategoryStore {
    pub cache_ttl: usize,
}

impl Query for CategoryStore {
    open spec fn ttl(&self) -> usize {
        self.cache_ttl
    }

    fn get_categories(&self) -> (r: ListRead) {
        ListRead::all_categories(self.cache_ttl)
    }

    fn get_sub_categories(&self, parent_id: Option<&str>) -> (r: ListRead) {
        ListRead::sub_categories(parent_id, self.cache_ttl)
    }

    fn get_category_by_id(&self, id: &str) -> (r: ItemRead) {
        ItemRead::by_id(id, self.cache_ttl)
    }
}

impl Mutation for CategoryStore {
    fn create_category(&self, content: Category) -> (p: CreatePlan) {
        CreatePlan::new(content)
    }

    fn update_category(&self, id: &str, content: Category) -> (r: Result<UpdatePlan, String>) {
        plan_update(id, parse_record_id(id), content)
    }

    fn delete_category(&self, id: &str) -> (r: Result<DeletePlan, String>) {
        plan_delete(id, parse_record_id(id))
    }
}

} // verus!
