use memo_api::store::{error_status, Memo, MemoForm, MemoStore, StoreError};

fn form(title: &str, content: &str) -> MemoForm {
    MemoForm { title: title.to_string(), content: content.to_string() }
}

fn titles(memos: &[Memo]) -> Vec<String> {
    memos.iter().map(|m| m.title.clone()).collect()
}

#[test]
fn create_stores_the_callers_identity() {
    let mut s = MemoStore::new();
    let m = s.create_memo("u1", &form("t", "c"), 10).unwrap();
    assert_eq!(m.user_id, "u1");
    assert_eq!(m.title, "t");
    assert_eq!(m.content, "c");
    assert_eq!(m.created_at, 10);
}

#[test]
fn create_then_list_round_trip() {
    let mut s = MemoStore::new();
    let created = s.create_memo("u1", &form("a", "b"), 7).unwrap();
    let listed = s.list_memos("u1");
    assert_eq!(listed.len(), 1);
    assert_eq!(listed[0].id, created.id);
    assert_eq!(listed[0].title, "a");
    assert_eq!(listed[0].content, "b");
}

#[test]
fn created_memo_is_invisible_to_another_user() {
    let mut s = MemoStore::new();
    let m = s.create_memo("u1", &form("a", "b"), 1).unwrap();
    assert!(m.id > 0);
    assert_eq!(m.user_id, "u1");
    assert_eq!(m.created_at, 1);
    assert!(s.list_memos("u2").is_empty());
}

#[test]
fn operations_are_scoped_to_the_owner() {
    let mut s = MemoStore::new();
    let mine = s.create_memo("u1", &form("mine", "1"), 1).unwrap();
    let theirs = s.create_memo("u2", &form("theirs", "2"), 2).unwrap();

    let listed = s.list_memos("u1");
    assert_eq!(listed.len(), 1);
    assert!(listed.iter().all(|m| m.user_id == "u1"));

    assert!(s.get_memo_by_id_and_user(theirs.id, "u1").is_none());
    assert!(s.get_memo_by_id_and_user(mine.id, "u1").is_some());

    assert!(matches!(s.update_memo("u1", theirs.id, &form("x", "y")), Err(StoreError::NotFound)));
    assert_eq!(s.delete_memo("u1", theirs.id), Err(StoreError::NotFound));

    let still_theirs = s.get_memo_by_id_and_user(theirs.id, "u2").unwrap();
    assert_eq!(still_theirs.title, "theirs");
}

#[test]
fn update_missing_id_returns_not_found_and_changes_nothing() {
    let mut s = MemoStore::new();
    s.create_memo("u1", &form("a", "b"), 1).unwrap();
    let r = s.update_memo("u1", 99, &form("x", "y"));
    assert!(matches!(r, Err(StoreError::NotFound)));
    let listed = s.list_memos("u1");
    assert_eq!(titles(&listed), vec!["a".to_string()]);
    assert_eq!(listed[0].content, "b");
}

#[test]
fn delete_missing_id_returns_not_found_and_changes_nothing() {
    let mut s = MemoStore::new();
    s.create_memo("u1", &form("a", "b"), 1).unwrap();
    assert_eq!(s.delete_memo("u1", 99), Err(StoreError::NotFound));
    assert_eq!(s.list_memos("u1").len(), 1);
}

#[test]
fn update_overwrites_title_and_content_only() {
    let mut s = MemoStore::new();
    let m = s.create_memo("u1", &form("old", "body"), 42).unwrap();
    let updated = s.update_memo("u1", m.id, &form("new", "text")).unwrap();
    assert_eq!(updated.id, m.id);
    assert_eq!(updated.user_id, "u1");
    assert_eq!(updated.title, "new");
    assert_eq!(updated.content, "text");
    assert_eq!(updated.created_at, 42);
    let listed = s.list_memos("u1");
    assert_eq!(listed.len(), 1);
    assert_eq!(listed[0].title, "new");
}

#[test]
fn delete_removes_exactly_the_requested_memo() {
    let mut s = MemoStore::new();
    let a = s.create_memo("u1", &form("a", "1"), 1).unwrap();
    let b = s.create_memo("u1", &form("b", "2"), 2).unwrap();
    assert_eq!(s.delete_memo("u1", a.id), Ok(()));
    let listed = s.list_memos("u1");
    assert_eq!(listed.len(), 1);
    assert_eq!(listed[0].id, b.id);
    assert_eq!(s.delete_memo("u1", a.id), Err(StoreError::NotFound));
}

#[test]
fn list_orders_newest_first() {
    let mut s = MemoStore::new();
    s.create_memo("u1", &form("oldest", "1"), 5).unwrap();
    s.create_memo("u1", &form("newest", "2"), 9).unwrap();
    s.create_memo("u1", &form("middle", "3"), 7).unwrap();
    let listed = s.list_memos("u1");
    assert_eq!(
        titles(&listed),
        vec!["newest".to_string(), "middle".to_string(), "oldest".to_string()]
    );
}

#[test]
fn list_keeps_memos_with_equal_timestamps() {
    let mut s = MemoStore::new();
    s.create_memo("u1", &form("a", "1"), 3).unwrap();
    s.create_memo("u1", &form("b", "2"), 3).unwrap();
    let listed = s.list_memos("u1");
    assert_eq!(listed.len(), 2);
    assert!(listed.iter().any(|m| m.title == "a"));
    assert!(listed.iter().any(|m| m.title == "b"));
}

#[test]
fn generated_ids_are_distinct_and_positive() {
    let mut s = MemoStore::new();
    let a = s.create_memo("u1", &form("a", "1"), 1).unwrap();
    let b = s.create_memo("u2", &form("b", "2"), 1).unwrap();
    assert!(a.id > 0);
    assert!(b.id > 0);
    assert_ne!(a.id, b.id);
}

#[test]
fn create_now_stamps_some_time_and_keeps_the_rest() {
    let mut s = MemoStore::new();
    let m = s.create_memo_now("u1", &form("t", "c")).unwrap();
    assert_eq!(m.user_id, "u1");
    assert_eq!(m.title, "t");
    assert_eq!(m.content, "c");
    assert_eq!(s.list_memos("u1").len(), 1);
}

#[test]
fn failed_operations_map_to_http_statuses() {
    assert_eq!(error_status(StoreError::NotFound), 404);
    assert_eq!(error_status(StoreError::IdsExhausted), 500);
}
