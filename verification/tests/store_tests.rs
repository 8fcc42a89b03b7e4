use todo_store::{Store, TodoError, UpdateTodo, QueryOptions};

fn no_update() -> UpdateTodo {
    UpdateTodo { title: None, content: None, completed: None }
}

#[test]
fn create_sets_defaults_and_distinct_ids() {
    let mut s = Store::new();
    let a = s
        .create_at("first".to_string(), "alpha".to_string(), 100)
        .expect("create on empty store must succeed");
    assert_eq!(a.completed, false);
    assert_eq!(a.title, "first");
    assert_eq!(a.content, "alpha");
    assert_eq!(a.created_at, 100);
    assert_eq!(a.updated_at, 100);
    assert!(!a.id.is_empty());
    assert_eq!(a.id.len(), 36);

    let b = s
        .create_at("second".to_string(), "beta".to_string(), 101)
        .expect("create with a fresh title must succeed");
    assert_ne!(a.id, b.id);
    assert_eq!(s.len(), 2);
}

#[test]
fn create_with_clock_sets_equal_timestamps() {
    let mut s = Store::new();
    let a = s
        .create("timed".to_string(), "x".to_string())
        .expect("create on empty store must succeed");
    assert_eq!(a.completed, false);
    assert_eq!(a.created_at, a.updated_at);
    assert_eq!(a.id.len(), 36);
}

#[test]
fn duplicate_title_yields_conflict_and_no_change() {
    let mut s = Store::new();
    s.create_at("buy milk".to_string(), "2%".to_string(), 10)
        .expect("create on empty store must succeed");
    let r = s.create_at("buy milk".to_string(), "skim".to_string(), 11);
    assert_eq!(r.unwrap_err(), TodoError::Conflict);
    assert_eq!(s.len(), 1);
    let page = s.list(&QueryOptions { page: None, limit: None });
    assert_eq!(page.len(), 1);
    assert_eq!(page[0].content, "2%");
}

#[test]
fn empty_patch_refreshes_updated_at_only() {
    let mut s = Store::new();
    let a = s
        .create_at("keep".to_string(), "body".to_string(), 500)
        .expect("create on empty store must succeed");
    let p = s
        .patch_at(&a.id, &no_update(), 900)
        .expect("patch of a live id must succeed");
    assert_eq!(p.id, a.id);
    assert_eq!(p.title, "keep");
    assert_eq!(p.content, "body");
    assert_eq!(p.completed, false);
    assert_eq!(p.created_at, 500);
    assert_eq!(p.updated_at, 900);
}

#[test]
fn patch_replaces_present_fields() {
    let mut s = Store::new();
    let a = s
        .create_at("old title".to_string(), "old content".to_string(), 1)
        .expect("create on empty store must succeed");
    let upd = UpdateTodo {
        title: Some("new title".to_string()),
        content: None,
        completed: Some(true),
    };
    let p = s.patch_at(&a.id, &upd, 2).expect("patch of a live id must succeed");
    assert_eq!(p.title, "new title");
    assert_eq!(p.content, "old content");
    assert_eq!(p.completed, true);
    assert_eq!(p.created_at, 1);
    assert_eq!(p.updated_at, 2);
    let g = s.get(&a.id).expect("get of a live id must succeed");
    assert_eq!(g.title, "new title");
    assert_eq!(g.completed, true);
}

#[test]
fn missing_id_yields_not_found_everywhere() {
    let mut s = Store::new();
    s.create_at("only".to_string(), "one".to_string(), 7)
        .expect("create on empty store must succeed");
    let unknown_id = "00000000-0000-0000-0000-000000000000".to_string();

    assert_eq!(s.get(&unknown_id).unwrap_err(), TodoError::NotFound);
    assert_eq!(
        s.patch_at(&unknown_id, &no_update(), 8).unwrap_err(),
        TodoError::NotFound
    );
    assert_eq!(s.delete(&unknown_id).unwrap_err(), TodoError::NotFound);
    assert_eq!(s.len(), 1);
    let page = s.list(&QueryOptions { page: None, limit: None });
    assert_eq!(page.len(), 1);
    assert_eq!(page[0].title, "only");
    assert_eq!(page[0].updated_at, 7);
}

#[test]
fn list_on_empty_store_is_empty() {
    let s = Store::new();
    let page = s.list(&QueryOptions { page: Some(1), limit: Some(10) });
    assert_eq!(page.len(), 0);
    assert_eq!(s.len(), 0);
}

#[test]
fn delete_removes_exactly_one_and_keeps_order() {
    let mut s = Store::new();
    let a = s.create_at("a".to_string(), "".to_string(), 1).unwrap();
    let b = s.create_at("b".to_string(), "".to_string(), 2).unwrap();
    let c = s.create_at("c".to_string(), "".to_string(), 3).unwrap();

    s.delete(&b.id).expect("delete of a live id must succeed");
    assert_eq!(s.len(), 2);
    assert_eq!(s.get(&b.id).unwrap_err(), TodoError::NotFound);

    let page = s.list(&QueryOptions { page: None, limit: None });
    assert_eq!(page.len(), 2);
    assert_eq!(page[0].id, a.id);
    assert_eq!(page[0].title, "a");
    assert_eq!(page[1].id, c.id);
    assert_eq!(page[1].title, "c");
}

#[test]
fn pagination_slices_by_insertion_order() {
    let mut s = Store::new();
    for i in 0..15 {
        s.create_at(format!("item {}", i), "".to_string(), i as i64)
            .expect("fresh titles must create");
    }
    let first = s.list(&QueryOptions { page: Some(1), limit: Some(10) });
    assert_eq!(first.len(), 10);
    assert_eq!(first[0].title, "item 0");
    assert_eq!(first[9].title, "item 9");

    let second = s.list(&QueryOptions { page: Some(2), limit: Some(10) });
    assert_eq!(second.len(), 5);
    assert_eq!(second[0].title, "item 10");
    assert_eq!(second[4].title, "item 14");

    let beyond = s.list(&QueryOptions { page: Some(3), limit: Some(10) });
    assert_eq!(beyond.len(), 0);

    let tiny = s.list(&QueryOptions { page: Some(4), limit: Some(2) });
    assert_eq!(tiny.len(), 2);
    assert_eq!(tiny[0].title, "item 6");
    assert_eq!(tiny[1].title, "item 7");
}

#[test]
fn zero_page_and_limit_normalize_to_defaults() {
    let mut s = Store::new();
    for i in 0..12 {
        s.create_at(format!("t{}", i), "".to_string(), i as i64)
            .expect("fresh titles must create");
    }
    let defaulted = s.list(&QueryOptions { page: Some(0), limit: Some(0) });
    let explicit = s.list(&QueryOptions { page: Some(1), limit: Some(10) });
    assert_eq!(defaulted.len(), 10);
    assert_eq!(defaulted.len(), explicit.len());
    for (d, e) in defaulted.iter().zip(explicit.iter()) {
        assert_eq!(d.id, e.id);
    }
    let absent = s.list(&QueryOptions { page: None, limit: None });
    assert_eq!(absent.len(), 10);
    assert_eq!(absent[9].title, "t9");
}

#[test]
fn full_scenario() {
    let mut s = Store::new();

    let a = s
        .create_at("buy milk".to_string(), "2%".to_string(), 1000)
        .expect("create on empty store must succeed");
    assert!(!a.id.is_empty());
    assert_eq!(a.completed, false);

    let dup = s.create_at("buy milk".to_string(), "whole".to_string(), 1001);
    assert_eq!(dup.unwrap_err(), TodoError::Conflict);
    assert_eq!(s.len(), 1);

    let upd = UpdateTodo { title: None, content: None, completed: Some(true) };
    let patched = s
        .patch_at(&a.id, &upd, 2000)
        .expect("patch of a live id must succeed");
    assert_eq!(patched.completed, true);
    assert_eq!(patched.title, "buy milk");
    assert!(patched.updated_at > patched.created_at);

    let page = s.list(&QueryOptions { page: Some(2), limit: Some(1) });
    assert_eq!(page.len(), 0);

    s.delete(&a.id).expect("delete of a live id must succeed");
    assert_eq!(s.get(&a.id).unwrap_err(), TodoError::NotFound);
    assert_eq!(s.len(), 0);
}

#[test]
fn clock_patch_still_keeps_other_fields() {
    let mut s = Store::new();
    let a = s
        .create("clocked".to_string(), "c".to_string())
        .expect("create on empty store must succeed");
    let p = s
        .patch(&a.id, &no_update())
        .expect("patch of a live id must succeed");
    assert_eq!(p.id, a.id);
    assert_eq!(p.title, "clocked");
    assert_eq!(p.content, "c");
    assert_eq!(p.completed, false);
    assert_eq!(p.created_at, a.created_at);
}
