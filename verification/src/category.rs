//! Category records: the API's message, what is written to the store, and
//! what the store hands back.
use vstd::prelude::*;

verus! {

/// A category as the API sends and receives it.
#[derive(Clone, Debug)]
pub struct Category {
    pub id: String,
    pub name: String,
    pub sub_categories: Vec<String>,
    pub image_url: Option<String>,
    pub parent_id: Option<String>,
    pub is_root: bool,
}

/// A category with its text fields taken by their characters.
pub struct CategoryView {
    pub id: Seq<char>,
    pub name: Seq<char>,
    pub sub_categories: Seq<Seq<char>>,
    pub image_url: Option<Seq<char>>,
    pub parent_id: Option<Seq<char>>,
    pub is_root: bool,
}

/// The characters of each string of a sequence.
pub open spec fn texts(v: Seq<String>) -> Seq<Seq<char>> {
    v.map_values(|s: String| s@)
}

/// The characters of an optional string.
pub open spec fn opt_text(o: Option<String>) -> Option<Seq<char>> {
    match o {
        Some(s) => Some(s@),
        None => None,
    }
}

impl View for Category {
    type V = CategoryView;

    open spec fn view(&self) -> CategoryView {
        CategoryView {
            id: self.id@,
            name: self.name@,
            sub_categories: texts(self.sub_categories@),
            image_url: opt_text(self.image_url),
            parent_id: opt_text(self.parent_id),
            is_root: self.is_root,
        }
    }
}

/// The views of a sequence of categories.
pub open spec fn category_views(v: Seq<Category>) -> Seq<CategoryView> {
    v.map_values(|c: Category| c@)
}

/// The category with every field empty.
pub open spec fn empty_category() -> CategoryView {
    CategoryView {
        id: Seq::empty(),
        name: Seq::empty(),
        sub_categories: Seq::empty(),
        image_url: None,
        parent_id: None,
        is_root: false,
    }
}

impl Category {
    /// A category with every field empty.
    pub fn new() -> (c: Category)
        ensures
            c@ == empty_category(),
    {
        let c = Category {
            id: String::new(),
            name: String::new(),
            sub_categories: Vec::new(),
            image_url: None,
            parent_id: None,
            is_root: false,
        };
        assert(texts(c.sub_categories@) =~= Seq::empty());
        c
    }
}

/// What is written to the store when a category is created or replaced:
/// the store chooses the id, and the parent is not kept.
#[derive(Debug)]
pub struct InsertCategory {
    pub name: String,
    pub sub_categories: Vec<String>,
    pub image_url: Option<String>,
    pub is_root: bool,
}

/// What is written for a category: its name, children, image and whether it is a root.
pub open spec fn insert_of(value: Category) -> InsertCategory {
    InsertCategory {
        name: value.name,
        sub_categories: value.sub_categories,
        image_url: value.image_url,
        is_root: value.is_root,
    }
}

/// What is written for a category keeps each of the fields that are written:
/// the name, the children, the image and the root flag.
pub proof fn lemma_insert_keeps_written_fields(value: Category)
    ensures
        insert_of(value).name == value.name,
        insert_of(value).sub_categories == value.sub_categories,
        insert_of(value).image_url == value.image_url,
        insert_of(value).is_root == value.is_root,
{
}

impl From<Category> for InsertCategory {
    fn from(value: Category) -> (r: InsertCategory)
        ensures
            r.name == value.name,
            r.sub_categories == value.sub_categories,
            r.image_url == value.image_url,
            r.is_root == value.is_root,
    {
        InsertCategory {
            name: value.name,
            sub_categories: value.sub_categories,
            image_url: value.image_url,
            is_root: value.is_root,
        }
    }
}

impl vstd::std_specs::convert::FromSpecImpl<Category> for InsertCategory {
    open spec fn obeys_from_spec() -> bool {
        true
    }

    open spec fn from_spec(value: Category) -> InsertCategory {
        insert_of(value)
    }
}

/// A stored record's id as the store renders it: `text` is the whole id
/// (table and key), `key` the key part alone.
pub struct RecordId {
    pub text: String,
    pub key: String,
}

/// A category row as the store returns it.
pub struct InternalCategory {
    pub id: RecordId,
    pub name: String,
    pub sub_categories: Vec<RecordId>,
    pub image_url: Option<String>,
    pub is_root: bool,
}

/// The category that a stored row stands for: its id is the whole record id,
/// each child is named by its key part alone, and no parent is set.
pub open spec fn record_category(r: InternalCategory) -> CategoryView {
    CategoryView {
        id: r.id.text@,
        name: r.name@,
        sub_categories: r.sub_categories@.map_values(|s: RecordId| s.key@),
        image_url: opt_text(r.image_url),
        parent_id: None,
        is_root: r.is_root,
    }
}

/// The categories that a sequence of stored rows stands for.
pub open spec fn record_categories(rows: Seq<InternalCategory>) -> Seq<CategoryView> {
    rows.map_values(|r: InternalCategory| record_category(r))
}

/// The category a stored row stands for keeps the row's whole id, name, image
/// and root flag, names each child by its key part in the row's order, and has
/// no parent.
pub proof fn lemma_record_category_keeps_row(r: InternalCategory)
    ensures
        record_category(r).id == r.id.text@,
        record_category(r).name == r.name@,
        record_category(r).image_url == opt_text(r.image_url),
        record_category(r).parent_id is None,
        record_category(r).is_root == r.is_root,
        record_category(r).sub_categories.len() == r.sub_categories@.len(),
        forall|i: int|
            0 <= i < r.sub_categories@.len() ==> #[trigger] record_category(r).sub_categories[i]
                == r.sub_categories@[i].key@,
{
}

/// Rows stand for exactly as many categories, one per row and in the rows' order.
pub proof fn lemma_record_categories_one_per_row(rows: Seq<InternalCategory>)
    ensures
        record_categories(rows).len() == rows.len(),
        forall|i: int|
            0 <= i < rows.len() ==> #[trigger] record_categories(rows)[i] == record_category(
                rows[i],
            ),
        forall|i: int|
            0 <= i < rows.len() ==> (#[trigger] record_categories(rows)[i]).is_root
                == rows[i].is_root && record_categories(rows)[i].name == rows[i].name@
                && record_categories(rows)[i].id == rows[i].id.text@,
{
}

impl Category {
    /// The category that a stored row stands for.
    pub fn from_record(value: InternalCategory) -> (c: Category)
        ensures
            c@ == record_category(value),
            c.id == value.id.text,
            c.name == value.name,
            c.image_url == value.image_url,
            c.parent_id is None,
            c.is_root == value.is_root,
            c.sub_categories@.len() == value.sub_categories@.len(),
            forall|i: int|
                0 <= i < value.sub_categories@.len() ==> #[trigger] c.sub_categories@[i]@
                    == value.sub_categories@[i].key@,
    {
        let mut sub_categories: Vec<String> = Vec::new();
        let n = value.sub_categories.len();
        for i in 0..n
            invariant
                n == value.sub_categories@.len(),
                sub_categories@.len() == i,
                forall|j: int|
                    0 <= j < i ==> #[trigger] sub_categories@[j]@
                        == value.sub_categories@[j].key@,
        {
            sub_categories.push(value.sub_categories[i].key.clone());
        }
        let c = Category {
            id: value.id.text,
            name: value.name,
            sub_categories,
            image_url: value.image_url,
            parent_id: None,
            is_root: value.is_root,
        };
        assert(texts(c.sub_categories@) =~= value.sub_categories@.map_values(
            |s: RecordId| s.key@,
        ));
        c
    }

    /// The categories that stored rows stand for, in the same order.
    pub fn from_records(rows: Vec<InternalCategory>) -> (v: Vec<Category>)
        ensures
            category_views(v@) == record_categories(rows@),
            v@.len() == rows@.len(),
            forall|i: int|
                0 <= i < rows@.len() ==> (#[trigger] v@[i]).id@ == rows@[i].id.text@
                    && v@[i].name@ == rows@[i].name@ && v@[i].is_root == rows@[i].is_root
                    && v@[i].parent_id is None && opt_text(v@[i].image_url) == opt_text(
                    rows@[i].image_url,
                ),
    {
        let mut out: Vec<Category> = Vec::new();
        let ghost all = rows@;
        for r in it: rows.into_iter()
            invariant
                it.seq() == all,
                out@.len() == it.index(),
                forall|j: int| 0 <= j < out@.len() ==> #[trigger] out@[j]@ == record_category(all[j]),
                forall|j: int|
                    0 <= j < out@.len() ==> (#[trigger] out@[j]).id@ == all[j].id.text@
                        && out@[j].name@ == all[j].name@ && out@[j].is_root == all[j].is_root
                        && out@[j].parent_id is None && opt_text(out@[j].image_url) == opt_text(
                        all[j].image_url,
                    ),
        {
            out.push(Category::from_record(r));
        }
        assert(category_views(out@) =~= record_categories(all));
        out
    }
}

} // verus!
