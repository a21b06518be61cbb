use api_ads::cache::{map_err, validate_cache};
use api_ads::cache_key::CacheKey;
use api_ads::category::{Category, InsertCategory, InternalCategory, RecordId};
use api_ads::engine::{CategoryStore, Mutation, Query};
use api_ads::read::{
    after_cache, after_decode, sub_categories_query, CacheStep, ItemLookup, ItemOutcome,
    ItemRowStep, ListOutcome, ListSource,
};
use api_ads::write::{CreatePlan, DeleteOutcome, UpdateOutcome};

fn rid(text: &str, key: &str) -> RecordId {
    RecordId { text: text.to_string(), key: key.to_string() }
}

fn row(id: &str, name: &str) -> InternalCategory {
    InternalCategory {
        id: rid(&format!("category:{id}"), id),
        name: name.to_string(),
        sub_categories: vec![rid("category:c1", "c1"), rid("category:c2", "c2")],
        image_url: Some("http://img".to_string()),
        is_root: true,
    }
}

fn store() -> CategoryStore {
    CategoryStore { cache_ttl: 60 }
}

#[test]
fn cache_key_texts() {
    assert_eq!(CacheKey::AllCategories.to_string(), "categories:all");
    assert_eq!(CacheKey::SubCategories { parent: "category:x" }.to_string(), "categories:parent=category:x");
    assert_eq!(CacheKey::Category { id: "category:y" }.to_string(), "categories:id=category:y");
}

#[test]
fn empty_cache_entry_is_a_miss() {
    assert_eq!(validate_cache(Ok(vec![])), Err("empty cache".to_string()));
    assert_eq!(validate_cache(Ok(vec![1, 2])), Ok(vec![1, 2]));
    assert_eq!(validate_cache(Err("down".to_string())), Err("down".to_string()));
    assert!(matches!(after_cache(Ok(vec![])), CacheStep::Miss));
    assert!(matches!(after_cache(Err("x".to_string())), CacheStep::Miss));
    match after_cache(Ok(vec![7])) {
        CacheStep::Decode(b) => assert_eq!(b, vec![7]),
        CacheStep::Miss => panic!("expected a hit"),
    }
}

#[test]
fn map_err_passes_message() {
    assert_eq!(map_err("boom"), "boom");
}

#[test]
fn decode_failure_falls_back() {
    assert_eq!(after_decode::<u8>(Ok(3)), Some(3));
    assert_eq!(after_decode::<u8>(Err("bad".to_string())), None);
}

#[test]
fn new_category_is_empty() {
    let c = Category::new();
    assert!(c.id.is_empty() && c.name.is_empty() && c.sub_categories.is_empty());
    assert_eq!(c.image_url, None);
    assert_eq!(c.parent_id, None);
    assert!(!c.is_root);
}

#[test]
fn insert_drops_id_and_parent() {
    let mut c = Category::new();
    c.id = "category:a".to_string();
    c.name = "Foo".to_string();
    c.parent_id = Some("category:p".to_string());
    c.sub_categories = vec!["x".to_string()];
    let i = InsertCategory::from(c);
    assert_eq!(i.name, "Foo");
    assert_eq!(i.sub_categories, vec!["x".to_string()]);
    assert_eq!(i.image_url, None);
    assert!(!i.is_root);
}

#[test]
fn record_to_category() {
    let c = Category::from_record(row("a", "Foo"));
    assert_eq!(c.id, "category:a");
    assert_eq!(c.name, "Foo");
    assert_eq!(c.sub_categories, vec!["c1".to_string(), "c2".to_string()]);
    assert_eq!(c.image_url, Some("http://img".to_string()));
    assert_eq!(c.parent_id, None);
    assert!(c.is_root);
}

#[test]
fn list_read_of_all_categories() {
    let r = store().get_categories();
    assert_eq!(r.key, "categories:all");
    assert!(matches!(&r.source, ListSource::Table(t) if t == "category"));
    assert_eq!(r.ttl, 60);
    match r.after_rows(Ok(vec![row("a", "Foo"), row("b", "Bar")])) {
        ListOutcome::Fetched { key, ttl, data } => {
            assert_eq!(key, "categories:all");
            assert_eq!(ttl, 60);
            assert_eq!(data.len(), 2);
            assert_eq!(data[0].id, "category:a");
            assert_eq!(data[1].name, "Bar");
        },
        ListOutcome::Failed(_) => panic!("expected rows"),
    }
    assert!(matches!(r.after_rows(Err("db".to_string())), ListOutcome::Failed(m) if m == "db"));
}

#[test]
fn sub_category_statements() {
    assert_eq!(sub_categories_query(Some("category:p")), "SELECT sub_categories.*.* FROM category:p;");
    assert_eq!(sub_categories_query(None), "SELECT * FROM category");
    let r = store().get_sub_categories(None);
    assert_eq!(r.key, "categories:parent=");
    assert!(matches!(&r.source, ListSource::Statement(s) if s == "SELECT * FROM category"));
    let r = store().get_sub_categories(Some("category:p"));
    assert_eq!(r.key, "categories:parent=category:p");
    assert!(matches!(&r.source, ListSource::Statement(s) if s == "SELECT sub_categories.*.* FROM category:p;"));
}

#[test]
fn item_read_by_id() {
    let r = store().get_category_by_id("category:a");
    assert_eq!(r.key, "categories:id=category:a");
    match r.lookup() {
        ItemLookup::Query(t) => assert_eq!(t.to_string(), "category:a"),
        ItemLookup::Failed(m) => panic!("{m}"),
    }
    let bad = store().get_category_by_id("not an id");
    assert!(matches!(bad.lookup(), ItemLookup::Failed(m) if m == "id not an id could not be parsed"));
    assert!(matches!(r.after_row(Ok(None)), ItemRowStep::Absent));
    assert!(matches!(r.after_row(Err("e".to_string())), ItemRowStep::Failed(m) if m == "e"));
    let c = match r.after_row(Ok(Some(row("a", "Foo")))) {
        ItemRowStep::Encode(c) => c,
        _ => panic!("expected a category"),
    };
    assert_eq!(c.id, "category:a");
    match r.after_encode(c, Ok(vec![1, 2, 3])) {
        ItemOutcome::Store { key, ttl, bytes, category } => {
            assert_eq!(key, "categories:id=category:a");
            assert_eq!(ttl, 60);
            assert_eq!(bytes, vec![1, 2, 3]);
            assert_eq!(category.name, "Foo");
        },
        ItemOutcome::Failed(_) => panic!("expected a store"),
    }
    assert!(matches!(r.after_encode(Category::new(), Err("enc".to_string())), ItemOutcome::Failed(m) if m == "enc"));
}

#[test]
fn create_takes_first_record() {
    let p = store().create_category(Category::new());
    assert_eq!(p.table, "category");
    let c = CreatePlan::created(Ok(vec![row("a", "Foo"), row("b", "Bar")])).unwrap();
    assert_eq!(c.id, "category:a");
    assert_eq!(CreatePlan::created(Ok(vec![])).unwrap_err(), "Could not get query result");
    assert_eq!(CreatePlan::created(Err("e".to_string())).unwrap_err(), "e");
}

#[test]
fn update_retires_item_entry() {
    assert_eq!(
        store().update_category("nope", Category::new()).err().unwrap(),
        "could not convert id to internal type"
    );
    let p = store().update_category("category:a", Category::new()).ok().unwrap();
    assert_eq!(p.pending.id, "category:a");
    assert_eq!(p.record.to_string(), "category:a");
    match p.pending.updated(Ok(Some(row("a", "Bar")))) {
        UpdateOutcome::Updated { invalidate, category } => {
            assert_eq!(invalidate, vec!["categories:id=category:a".to_string()]);
            assert_eq!(category.name, "Bar");
        },
        UpdateOutcome::Failed(_) => panic!("expected an update"),
    }
    let p = store().update_category("category:a", Category::new()).ok().unwrap();
    assert!(matches!(p.pending.updated(Ok(None)), UpdateOutcome::Failed(m) if m == "Could not get query result"));
}

#[test]
fn delete_retires_item_and_list() {
    assert_eq!(store().delete_category("nope").err().unwrap(), "could not convert id to internal type");
    let p = store().delete_category("category:a").ok().unwrap();
    assert_eq!(p.record.to_string(), "category:a");
    match p.pending.deleted(Ok(Some(row("a", "Foo")))) {
        DeleteOutcome::Deleted { invalidate, id } => {
            assert_eq!(
                invalidate,
                vec!["categories:id=category:a".to_string(), "categories:all".to_string()]
            );
            assert_eq!(id, "category:a");
        },
        DeleteOutcome::Failed(_) => panic!("expected a deletion"),
    }
    let p = store().delete_category("category:a").ok().unwrap();
    assert!(matches!(p.pending.deleted(Ok(None)), DeleteOutcome::Failed(m) if m == "nothing to delete"));
    let p = store().delete_category("category:a").ok().unwrap();
    assert!(matches!(p.pending.deleted(Err("e".to_string())), DeleteOutcome::Failed(m) if m == "e"));
}
