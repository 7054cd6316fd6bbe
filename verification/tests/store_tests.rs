use omikuji_bot::store::SessionStore;

#[test]
fn create_read_delete() {
    let mut store = SessionStore::new();
    assert!(!store.contains(7));
    assert!(store.read(7).is_none());
    assert!(store.create(7));
    assert!(store.contains(7));
    let draft = store.read(7).expect("created");
    assert_eq!(draft.class, None);
    assert_eq!(draft.description, None);
    assert_eq!(draft.sections.len(), 0);
    assert_eq!(draft.photo, None);
    store.delete(7);
    assert!(!store.contains(7));
}

#[test]
fn second_create_is_rejected_and_keeps_the_draft() {
    let mut store = SessionStore::new();
    assert!(store.create(7));
    let mut draft = store.take(7).expect("created");
    draft.description = Some(String::from("kept"));
    store.put(7, draft);
    assert!(!store.create(7));
    let draft = store.read(7).expect("still there");
    assert_eq!(draft.description.as_deref(), Some("kept"));
}

#[test]
fn identities_are_independent() {
    let mut store = SessionStore::new();
    assert!(store.create(1));
    assert!(store.create(2));
    store.delete(1);
    assert!(!store.contains(1));
    assert!(store.contains(2));
}

#[test]
fn delete_without_a_draft_is_a_no_op() {
    let mut store = SessionStore::new();
    store.delete(42);
    assert!(!store.contains(42));
}
