//! Mutations of the category store and the cache entries each one retires.
use crate::cache_key::{key_text, CacheKey, CacheKeyView};
use crate::category::{insert_of, record_category, texts, Category, InsertCategory, InternalCategory};
use crate::read::category_table;
use vstd::prelude::*;

verus! {

/// The message of a mutation whose id is no record id.
pub open spec fn bad_id_message() -> Seq<char> {
    "could not convert id to internal type"@
}

/// The message of a mutation after which the store returned no record.
pub open spec fn no_result_message() -> Seq<char> {
    "Could not get query result"@
}

/// The message of a deletion of a record that does not exist.
pub open spec fn nothing_to_delete_message() -> Seq<char> {
    "nothing to delete"@
}

/// The cache keys that replacing category `id` retires.
pub open spec fn update_invalidations(id: Seq<char>) -> Seq<Seq<char>> {
    seq![key_text(CacheKeyView::Category(id))]
}

/// The cache keys that deleting category `id` retires.
pub open spec fn delete_invalidations(id: Seq<char>) -> Seq<Seq<char>> {
    seq![key_text(CacheKeyView::Category(id)), key_text(CacheKeyView::AllCategories)]
}

/// A creation: write `insert` as a new record of `table`.
pub struct CreatePlan {
    pub table: String,
    pub insert: InsertCategory,
}

impl CreatePlan {
    /// The creation of `content` in the category table.
    pub fn new(content: Category) -> (p: CreatePlan)
        ensures
            p.table@ == category_table(),
            p.insert == insert_of(content),
            p.insert.name == content.name,
            p.insert.sub_categories == content.sub_categories,
            p.insert.image_url == content.image_url,
            p.insert.is_root == content.is_root,
    {
        CreatePlan { table: String::from_str("category"), insert: InsertCategory::from(content) }
    }

    /// The answer once the store has created the record: the first record it
    /// returned, as a category; no record is an error.
    pub fn created(rows: Result<Vec<InternalCategory>, String>) -> (r: Result<Category, String>)
        ensures
            match rows {
                Ok(rows) => if rows@.len() > 0 {
                    r matches Ok(c) && c@ == record_category(rows@[0]) && c.id == rows@[0].id.text
                        && c.name == rows@[0].name && c.image_url == rows@[0].image_url
                        && c.is_root == rows@[0].is_root && c.parent_id is None
                } else {
                    r matches Err(m) && m@ == no_result_message()
                },
                Err(e) => r == Err::<Category, String>(e),
            },
    {
        match rows {
            Ok(rows) => {
                let mut rows = rows;
                if rows.len() > 0 {
                    Ok(Category::from_record(rows.swap_remove(0)))
                } else {
                    Err(String::from_str("Could not get query result"))
                }
            },
            Err(e) => Err(e),
        }
    }
}

/// A replacement still waiting for the store's answer.
pub struct PendingUpdate {
    pub id: String,
}

/// A replacement: write `insert` over `record`, then finish with `pending`.
pub struct UpdatePlan {
    pub pending: PendingUpdate,
    pub record: surrealdb::sql::Thing,
    pub insert: InsertCategory,
}

/// How a replacement ends.
pub enum UpdateOutcome {
    /// It failed with this message.
    Failed(String),
    /// Remove these cache keys, then answer the category.
    Updated { invalidate: Vec<String>, category: Category },
}

/// Plans the replacement of category `id` by `content`, given what parsing the
/// id as a record id gave.
pub fn plan_update(id: &str, record: Option<surrealdb::sql::Thing>, content: Category) -> (r: Result<
    UpdatePlan,
    String,
>)
    ensures
        match record {
            Some(t) => r matches Ok(p) && p.pending.id@ == id@ && p.record == t && p.insert
                == insert_of(content) && p.insert.name == content.name && p.insert.sub_categories
                == content.sub_categories && p.insert.image_url == content.image_url
                && p.insert.is_root == content.is_root,
            None => r matches Err(m) && m@ == bad_id_message(),
        },
{
    match record {
        Some(t) => Ok(
            UpdatePlan {
                pending: PendingUpdate { id: String::from_str(id) },
                record: t,
                insert: InsertCategory::from(content),
            },
        ),
        None => Err(String::from_str("could not convert id to internal type")),
    }
}

impl PendingUpdate {
    /// The end of a replacement once the store has answered: a failure is
    /// passed on; no record is an error; a record is the answer, after the
    /// category's own cache entry is removed.
    pub fn updated(self, row: Result<Option<InternalCategory>, String>) -> (out: UpdateOutcome)
        ensures
            match row {
                Ok(Some(r)) => out matches UpdateOutcome::Updated { invalidate, category }
                    && texts(invalidate@) == update_invalidations(self.id@) && category@
                    == record_category(r) && category.id == r.id.text && category.name == r.name
                    && category.image_url == r.image_url && category.is_root == r.is_root
                    && category.parent_id is None,
                Ok(None) => out matches UpdateOutcome::Failed(m) && m@ == no_result_message(),
                Err(e) => out == UpdateOutcome::Failed(e),
            },
    {
        match row {
            Ok(Some(r)) => {
                let mut invalidate: Vec<String> = Vec::new();
                invalidate.push(CacheKey::Category { id: self.id.as_str() }.to_string());
                assert(texts(invalidate@) =~= update_invalidations(self.id@));
                UpdateOutcome::Updated { invalidate, category: Category::from_record(r) }
            },
            Ok(None) => UpdateOutcome::Failed(String::from_str("Could not get query result")),
            Err(e) => UpdateOutcome::Failed(e),
        }
    }
}

/// A deletion still waiting for the store's answer.
pub struct PendingDelete {
    pub id: String,
}

/// A deletion: remove `record`, then finish with `pending`.
pub struct DeletePlan {
    pub pending: PendingDelete,
    pub record: surrealdb::sql::Thing,
}

/// How a deletion ends.
pub enum DeleteOutcome {
    /// It failed with this message.
    Failed(String),
    /// Remove these cache keys, then answer the id that was deleted.
    Deleted { invalidate: Vec<String>, id: String },
}

/// Plans the deletion of category `id`, given what parsing the id as a record id gave.
pub fn plan_delete(id: &str, record: Option<surrealdb::sql::Thing>) -> (r: Result<DeletePlan, String>)
    ensures
        match record {
            Some(t) => r matches Ok(p) && p.pending.id@ == id@ && p.record == t,
            None => r matches Err(m) && m@ == bad_id_message(),
        },
{
    match record {
        Some(t) => Ok(DeletePlan { pending: PendingDelete { id: String::from_str(id) }, record: t }),
        None => Err(String::from_str("could not convert id to internal type")),
    }
}

impl PendingDelete {
    /// The end of a deletion once the store has answered: a failure is passed
    /// on; no record means there was nothing to delete; a deleted record makes
    /// the answer the id, after the category's entry and the list of all
    /// categories are removed from the cache.
    pub fn deleted(self, row: Result<Option<InternalCategory>, String>) -> (out: DeleteOutcome)
        ensures
            match row {
                Ok(Some(_)) => out matches DeleteOutcome::Deleted { invalidate, id } && texts(
                    invalidate@,
                ) == delete_invalidations(self.id@) && id@ == self.id@,
                Ok(None) => out matches DeleteOutcome::Failed(m) && m@
                    == nothing_to_delete_message(),
                Err(e) => out == DeleteOutcome::Failed(e),
            },
    {
        match row {
            Ok(Some(_)) => {
                let mut invalidate: Vec<String> = Vec::new();
                invalidate.push(CacheKey::Category { id: self.id.as_str() }.to_string());
                invalidate.push(CacheKey::AllCategories.to_string());
                assert(texts(invalidate@) =~= delete_invalidations(self.id@));
                DeleteOutcome::Deleted { invalidate, id: self.id }
            },
            Ok(None) => DeleteOutcome::Failed(String::from_str("nothing to delete")),
            Err(e) => DeleteOutcome::Failed(e),
        }
    }
}

} // verus!
