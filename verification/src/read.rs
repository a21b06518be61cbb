//! Cache-aside reads: a query is answered from the cache when the cache holds
//! a usable entry, and from the database otherwise, in which case the rows
//! read are written back to the cache under the same key.
use crate::cache::validate_cache;
use crate::cache_key::{key_text, CacheKey, CacheKeyView};
use crate::category::{
    category_views, record_categories, record_category, Category, InternalCategory,
};
use crate::record_id::{parse_record_id, parsed_record};
use vstd::prelude::*;

verus! {

/// The table that holds the categories.
pub open spec fn category_table() -> Seq<char> {
    "category"@
}

/// Where a list read takes its rows from when the cache cannot answer.
pub enum ListSource {
    /// Every row of a table.
    Table(String),
    /// The rows that a SurrealQL statement returns.
    Statement(String),
}

pub enum ListSourceView {
    Table(Seq<char>),
    Statement(Seq<char>),
}

impl View for ListSource {
    type V = ListSourceView;

    open spec fn view(&self) -> ListSourceView {
        match *self {
            ListSource::Table(t) => ListSourceView::Table(t@),
            ListSource::Statement(s) => ListSourceView::Statement(s@),
        }
    }
}

/// The statement that reads the children of `parent`, or, when no parent is
/// given, every category (none of them stores a parent).
pub open spec fn sub_categories_statement(parent: Option<Seq<char>>) -> Seq<char> {
    match parent {
        Some(p) => "SELECT sub_categories.*.* FROM "@ + p + ";"@,
        None => "SELECT * FROM "@ + category_table(),
    }
}

/// The statement for a parent names exactly that parent, between the fixed
/// select clause and the closing ";", so distinct parents are read by
/// distinct statements; with no parent, the statement selects the whole
/// category table.
pub proof fn lemma_sub_categories_statement_names_parent(p: Seq<char>)
    ensures
        sub_categories_statement(Some(p)).len() == 32 + p.len(),
        sub_categories_statement(Some(p)).subrange(31, 31 + p.len() as int) == p,
        sub_categories_statement(Some(p)).subrange(0, 31) == "SELECT sub_categories.*.* FROM "@,
        sub_categories_statement(None) == "SELECT * FROM "@ + "category"@,
{
    reveal_strlit("SELECT sub_categories.*.* FROM ");
    reveal_strlit(";");
    let s = sub_categories_statement(Some(p));
    assert(s.subrange(31, 31 + p.len() as int) =~= p);
    assert(s.subrange(0, 31) =~= "SELECT sub_categories.*.* FROM "@);
}

/// The message of a read whose id is no record id names that id after "id ".
pub proof fn lemma_unparsable_id_message_names_id(id: Seq<char>)
    ensures
        unparsable_id_message(id).subrange(0, 3) == "id "@,
        unparsable_id_message(id).subrange(3, 3 + id.len() as int) == id,
{
    reveal_strlit("id ");
    assert(unparsable_id_message(id).subrange(0, 3) =~= "id "@);
    assert(unparsable_id_message(id).subrange(3, 3 + id.len() as int) =~= id);
}

/// The statement that reads the children of `parent`, or, when no parent is
/// given, every category.
pub fn sub_categories_query(parent: Option<&str>) -> (s: String)
    ensures
        s@ == sub_categories_statement(match parent {
            Some(p) => Some(p@),
            None => None,
        }),
{
    match parent {
        Some(p) => {
            let mut s = String::from_str("SELECT sub_categories.*.* FROM ");
            s.append(p);
            s.append(";");
            s
        },
        None => {
            let mut s = String::from_str("SELECT * FROM ");
            s.append("category");
            s
        },
    }
}

/// What to do with a value read from the cache.
pub enum CacheStep {
    /// The entry is usable: decode these bytes.
    Decode(Vec<u8>),
    /// The cache cannot answer: read from the database.
    Miss,
}

/// The step after a cache read: a non-empty value is decoded; an empty value
/// or a failed read sends the query to the database.
pub fn after_cache(reply: Result<Vec<u8>, String>) -> (step: CacheStep)
    ensures
        match reply {
            Ok(bytes) => if bytes@.len() > 0 {
                step == CacheStep::Decode(bytes)
            } else {
                step == CacheStep::Miss
            },
            Err(_) => step == CacheStep::Miss,
        },
{
    match validate_cache(reply) {
        Ok(bytes) => CacheStep::Decode(bytes),
        Err(_) => CacheStep::Miss,
    }
}

/// The step after decoding a cache entry: what decodes is the answer; an entry
/// that does not decode sends the query to the database.
pub fn after_decode<T>(decoded: Result<T, String>) -> (answer: Option<T>)
    ensures
        match decoded {
            Ok(v) => answer == Some(v),
            Err(_) => answer is None,
        },
{
    match decoded {
        Ok(v) => Some(v),
        Err(_) => None,
    }
}

/// A read of a list of categories.
pub struct ListRead {
    /// The cache entry that answers it.
    pub key: String,
    /// Where the rows come from on a miss.
    pub source: ListSource,
    /// How long, in seconds, a written-back entry lives.
    pub ttl: usize,
}

/// How a list read ends once the database has answered.
pub enum ListOutcome {
    /// The database read failed with this message.
    Failed(String),
    /// The rows, to be returned and written to the cache under `key` for `ttl` seconds.
    Fetched { key: String, ttl: usize, data: Vec<Category> },
}

impl ListRead {
    /// The read of every category: cached under "categories:all", read from the category table.
    pub fn all_categories(ttl: usize) -> (r: ListRead)
        ensures
            r.key@ == key_text(CacheKeyView::AllCategories),
            r.source@ == ListSourceView::Table(category_table()),
            r.ttl == ttl,
    {
        ListRead {
            key: CacheKey::AllCategories.to_string(),
            source: ListSource::Table(String::from_str("category")),
            ttl,
        }
    }

    /// The read of the children of `parent`, or of every category when no
    /// parent is given; both are cached under the parent's key, the empty
    /// parent standing for none.
    pub fn sub_categories(parent: Option<&str>, ttl: usize) -> (r: ListRead)
        ensures
            r.key@ == key_text(CacheKeyView::SubCategories(match parent {
                Some(p) => p@,
                None => Seq::empty(),
            })),
            r.source@ == ListSourceView::Statement(sub_categories_statement(match parent {
                Some(p) => Some(p@),
                None => None,
            })),
            r.ttl == ttl,
    {
        let key = match parent {
            Some(p) => CacheKey::SubCategories { parent: p }.to_string(),
            None => CacheKey::SubCategories { parent: "" }.to_string(),
        };
        proof {
            reveal_strlit("");
        }
        ListRead { key, source: ListSource::Statement(sub_categories_query(parent)), ttl }
    }

    /// The end of the read once the database has answered: a failure is passed
    /// on; rows become categories, in order, returned and written back under
    /// this read's key.
    pub fn after_rows(&self, rows: Result<Vec<InternalCategory>, String>) -> (out: ListOutcome)
        ensures
            match rows {
                Ok(rows) => out matches ListOutcome::Fetched { key, ttl, data } && key == self.key
                    && ttl == self.ttl && category_views(data@) == record_categories(rows@)
                    && data@.len() == rows@.len() && forall|i: int|
                    0 <= i < rows@.len() ==> (#[trigger] data@[i]).id@ == rows@[i].id.text@
                        && data@[i].name@ == rows@[i].name@ && data@[i].is_root
                        == rows@[i].is_root,
                Err(e) => out == ListOutcome::Failed(e),
            },
    {
        match rows {
            Ok(rows) => ListOutcome::Fetched {
                key: self.key.clone(),
                ttl: self.ttl,
                data: Category::from_records(rows),
            },
            Err(e) => ListOutcome::Failed(e),
        }
    }
}

/// A read of one category by its id.
pub struct ItemRead {
    /// The id asked for.
    pub id: String,
    /// The cache entry that answers it.
    pub key: String,
    /// How long, in seconds, a written-back entry lives.
    pub ttl: usize,
}

/// How the database is asked for the category once the cache cannot answer.
pub enum ItemLookup {
    /// The id is no record id; the read fails with this message.
    Failed(String),
    /// Read this record.
    Query(surrealdb::sql::Thing),
}

/// What the database answered for one record.
pub enum ItemRowStep {
    /// The read failed with this message.
    Failed(String),
    /// There is no such record: the answer is none.
    Absent,
    /// The record stands for this category, which is to be encoded for the cache.
    Encode(Category),
}

/// How a read of one category ends once its record was encoded.
pub enum ItemOutcome {
    /// Encoding failed with this message; the read fails.
    Failed(String),
    /// Write `bytes` to the cache under `key` for `ttl` seconds, and answer `category`.
    Store { key: String, ttl: usize, bytes: Vec<u8>, category: Category },
}

/// The message of a read whose id is no record id.
pub open spec fn unparsable_id_message(id: Seq<char>) -> Seq<char> {
    "id "@ + id + " could not be parsed"@
}

impl ItemRead {
    /// The read of category `id`: cached under "categories:id=" and the id.
    pub fn by_id(id: &str, ttl: usize) -> (r: ItemRead)
        ensures
            r.id@ == id@,
            r.key@ == key_text(CacheKeyView::Category(id@)),
            r.ttl == ttl,
    {
        ItemRead { id: String::from_str(id), key: CacheKey::Category { id }.to_string(), ttl }
    }

    /// How to ask the database, given what parsing the id as a record id gave.
    pub fn lookup_parsed(&self, record: Option<surrealdb::sql::Thing>) -> (l: ItemLookup)
        ensures
            match record {
                Some(t) => l == ItemLookup::Query(t),
                None => l matches ItemLookup::Failed(m) && m@ == unparsable_id_message(self.id@),
            },
    {
        match record {
            Some(t) => ItemLookup::Query(t),
            None => {
                let mut m = String::from_str("id ");
                m.append(self.id.as_str());
                m.append(" could not be parsed");
                ItemLookup::Failed(m)
            },
        }
    }

    /// How to ask the database: the id is parsed as a record id first.
    pub fn lookup(&self) -> (l: ItemLookup)
        ensures
            l is Query <==> parsed_record(self.id@) is Some,
            l matches ItemLookup::Query(t) ==> parsed_record(self.id@) == Some(t),
            l matches ItemLookup::Failed(m) ==> m@ == unparsable_id_message(self.id@),
    {
        self.lookup_parsed(parse_record_id(self.id.as_str()))
    }

    /// The step after the database answered: a failure is passed on, a missing
    /// record answers none, and a record becomes the category to encode.
    pub fn after_row(&self, row: Result<Option<InternalCategory>, String>) -> (step: ItemRowStep)
        ensures
            match row {
                Ok(Some(r)) => step matches ItemRowStep::Encode(c) && c@ == record_category(r)
                    && c.id == r.id.text && c.name == r.name && c.image_url == r.image_url
                    && c.parent_id is None && c.is_root == r.is_root,
                Ok(None) => step is Absent,
                Err(e) => step == ItemRowStep::Failed(e),
            },
    {
        match row {
            Ok(Some(r)) => ItemRowStep::Encode(Category::from_record(r)),
            Ok(None) => ItemRowStep::Absent,
            Err(e) => ItemRowStep::Failed(e),
        }
    }

    /// The end of the read once the category was encoded: a failed encoding
    /// fails the read; otherwise the bytes are written back under this read's
    /// key and the category is the answer.
    pub fn after_encode(&self, category: Category, encoded: Result<Vec<u8>, String>) -> (out:
        ItemOutcome)
        ensures
            match encoded {
                Ok(bytes) => out == (ItemOutcome::Store {
                    key: self.key,
                    ttl: self.ttl,
                    bytes,
                    category,
                }),
                Err(e) => out == ItemOutcome::Failed(e),
            },
    {
        match encoded {
            Ok(bytes) => ItemOutcome::Store { key: self.key.clone(), ttl: self.ttl, bytes, category },
            Err(e) => ItemOutcome::Failed(e),
        }
    }
}

} // verus!
