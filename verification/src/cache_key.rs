//! Keys under which query results are cached.
use vstd::prelude::*;

verus! {

/// A cache entry: every category, the children of one parent, or one category.
pub enum CacheKey<'a> {
    AllCategories,
    SubCategories { parent: &'a str },
    Category { id: &'a str },
}

/// A cache key with its text arguments taken by their characters.
pub enum CacheKeyView {
    AllCategories,
    SubCategories(Seq<char>),
    Category(Seq<char>),
}

impl<'a> View for CacheKey<'a> {
    type V = CacheKeyView;

    open spec fn view(&self) -> CacheKeyView {
        match *self {
            CacheKey::AllCategories => CacheKeyView::AllCategories,
            CacheKey::SubCategories { parent } => CacheKeyView::SubCategories(parent@),
            CacheKey::Category { id } => CacheKeyView::Category(id@),
        }
    }
}

/// The text of a key, as it is stored in the cache.
pub open spec fn key_text(k: CacheKeyView) -> Seq<char> {
    match k {
        CacheKeyView::AllCategories => "categories:all"@,
        CacheKeyView::SubCategories(parent) => "categories:parent="@ + parent,
        CacheKeyView::Category(id) => "categories:id="@ + id,
    }
}

impl<'a> CacheKey<'a> {
    /// The key's text.
    pub fn to_string(&self) -> (s: String)
        ensures
            s@ == key_text(self@),
    {
        match self {
            CacheKey::AllCategories => String::from_str("categories:all"),
            CacheKey::SubCategories { parent } => {
                let mut s = String::from_str("categories:parent=");
                s.append(parent);
                s
            },
            CacheKey::Category { id } => {
                let mut s = String::from_str("categories:id=");
                s.append(id);
                s
            },
        }
    }
}

/// Distinct keys have distinct texts, so no two kinds of result share a cache entry.
pub proof fn lemma_key_text_injective(a: CacheKeyView, b: CacheKeyView)
    requires
        key_text(a) == key_text(b),
    ensures
        a == b,
{
    reveal_strlit("categories:all");
    reveal_strlit("categories:parent=");
    reveal_strlit("categories:id=");
    let t = key_text(a);
    assert(t.len() >= 14);
    match a {
        CacheKeyView::AllCategories => {
            assert(t[11] == 'a');
        },
        CacheKeyView::SubCategories(p) => {
            assert(t[11] == 'p');
            if let CacheKeyView::SubCategories(q) = b {
                assert(p =~= t.subrange(18, t.len() as int));
                assert(q =~= t.subrange(18, t.len() as int));
            }
        },
        CacheKeyView::Category(i) => {
            assert(t[11] == 'i');
            if let CacheKeyView::Category(j) = b {
                assert(i =~= t.subrange(14, t.len() as int));
                assert(j =~= t.subrange(14, t.len() as int));
            }
        },
    }
    match b {
        CacheKeyView::AllCategories => { assert(t[11] == 'a'); },
        CacheKeyView::SubCategories(_) => { assert(t[11] == 'p'); },
        CacheKeyView::Category(_) => { assert(t[11] == 'i'); },
    }
}

} // verus!
