//! What the mutations do to the cache, over a model of the cache as a map
//! from key text to stored bytes.
use crate::cache_key::{key_text, lemma_key_text_injective, CacheKeyView};
use crate::write::{delete_invalidations, update_invalidations};
use vstd::prelude::*;

verus! {

/// The cache once the given keys are removed from it.
pub open spec fn evict(cache: Map<Seq<char>, Seq<u8>>, keys: Seq<Seq<char>>) -> Map<
    Seq<char>,
    Seq<u8>,
> {
    cache.remove_keys(keys.to_set())
}

/// Whether `after` holds the entry under `k` exactly as `before` does.
pub open spec fn entry_kept(
    before: Map<Seq<char>, Seq<u8>>,
    after: Map<Seq<char>, Seq<u8>>,
    k: Seq<char>,
) -> bool {
    &&& after.contains_key(k) == before.contains_key(k)
    &&& before.contains_key(k) ==> after[k] == before[k]
}

/// Once category `id` is replaced, the cache holds no entry for it, so the
/// next read of it is answered by the database; every other entry stays.
pub proof fn lemma_update_retires_only_its_entry(
    cache: Map<Seq<char>, Seq<u8>>,
    id: Seq<char>,
    other: CacheKeyView,
)
    ensures
        !evict(cache, update_invalidations(id)).contains_key(key_text(CacheKeyView::Category(id))),
        other != CacheKeyView::Category(id) ==> entry_kept(
            cache,
            evict(cache, update_invalidations(id)),
            key_text(other),
        ),
{
    let keys = update_invalidations(id);
    assert(keys.to_set().contains(key_text(CacheKeyView::Category(id)))) by {
        assert(keys[0] == key_text(CacheKeyView::Category(id)));
    }
    if other != CacheKeyView::Category(id) {
        if keys.to_set().contains(key_text(other)) {
            let j = choose|j: int| 0 <= j < keys.len() && keys[j] == key_text(other);
            lemma_key_text_injective(other, CacheKeyView::Category(id));
        }
    }
}

/// Once category `id` is deleted, the cache holds neither its entry nor the
/// list of all categories; every other entry stays.
pub proof fn lemma_delete_retires_entry_and_list(
    cache: Map<Seq<char>, Seq<u8>>,
    id: Seq<char>,
    other: CacheKeyView,
)
    ensures
        !evict(cache, delete_invalidations(id)).contains_key(key_text(CacheKeyView::Category(id))),
        !evict(cache, delete_invalidations(id)).contains_key(key_text(CacheKeyView::AllCategories)),
        other != CacheKeyView::Category(id) && other != CacheKeyView::AllCategories ==> entry_kept(
            cache,
            evict(cache, delete_invalidations(id)),
            key_text(other),
        ),
{
    let keys = delete_invalidations(id);
    assert(keys.to_set().contains(key_text(CacheKeyView::Category(id)))) by {
        assert(keys[0] == key_text(CacheKeyView::Category(id)));
    }
    assert(keys.to_set().contains(key_text(CacheKeyView::AllCategories))) by {
        assert(keys[1] == key_text(CacheKeyView::AllCategories));
    }
    if other != CacheKeyView::Category(id) && other != CacheKeyView::AllCategories {
        if keys.to_set().contains(key_text(other)) {
            let j = choose|j: int| 0 <= j < keys.len() && keys[j] == key_text(other);
            if j == 0 {
                lemma_key_text_injective(other, CacheKeyView::Category(id));
            } else {
                lemma_key_text_injective(other, CacheKeyView::AllCategories);
            }
        }
    }
}

} // verus!
