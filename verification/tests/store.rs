use user_directory::store::UserStore;
use user_directory::user::User;

fn user(id: &str, name: &str, email: &str) -> User {
    User::new(id.to_string(), name.to_string(), email.to_string())
}

#[test]
fn new_user_keeps_its_three_fields() {
    let u = user("7", "Ada", "ada@example.com");
    assert_eq!(u.id, "7");
    assert_eq!(u.name, "Ada");
    assert_eq!(u.email, "ada@example.com");
}

#[test]
fn user_fields_may_be_empty_or_unvalidated() {
    let u = user("", "", "not an address");
    assert_eq!(u.id, "");
    assert_eq!(u.email, "not an address");
}

#[test]
fn clone_of_a_user_equals_it() {
    let u = user("7", "Ada", "ada@example.com");
    assert_eq!(u.clone(), u);
    assert_ne!(u, user("7", "Ada", "ada@example.org"));
    assert_ne!(u, user("7", "Eve", "ada@example.com"));
    assert_ne!(u, user("8", "Ada", "ada@example.com"));
}

#[test]
fn empty_store_finds_nothing() {
    let store = UserStore::new();
    assert_eq!(store.lookup(&"1".to_string()), None);
    assert_eq!(store.lookup(&"".to_string()), None);
}

#[test]
fn insert_then_lookup_returns_the_record() {
    let mut store = UserStore::new();
    let u = user("1", "name", "name@example.com");
    store.insert(u.clone());
    assert_eq!(store.lookup(&"1".to_string()), Some(u));
}

#[test]
fn lookup_of_another_id_misses() {
    let mut store = UserStore::new();
    store.insert(user("1", "name", "name@example.com"));
    assert_eq!(store.lookup(&"2".to_string()), None);
    assert_eq!(store.lookup(&"11".to_string()), None);
    assert_eq!(store.lookup(&"".to_string()), None);
}

#[test]
fn second_insert_under_one_id_wins() {
    let mut store = UserStore::new();
    store.insert(user("x", "first", "first@example.com"));
    store.insert(user("x", "second", "second@example.com"));
    assert_eq!(
        store.lookup(&"x".to_string()),
        Some(user("x", "second", "second@example.com"))
    );
}

#[test]
fn insert_leaves_other_records_alone() {
    let mut store = UserStore::new();
    store.insert(user("a", "A", "a@example.com"));
    store.insert(user("b", "B", "b@example.com"));
    store.insert(user("c", "C", "c@example.com"));
    store.insert(user("b", "B2", "b2@example.com"));
    assert_eq!(store.lookup(&"a".to_string()), Some(user("a", "A", "a@example.com")));
    assert_eq!(store.lookup(&"b".to_string()), Some(user("b", "B2", "b2@example.com")));
    assert_eq!(store.lookup(&"c".to_string()), Some(user("c", "C", "c@example.com")));
}

#[test]
fn stored_record_carries_its_key() {
    let mut store = UserStore::new();
    for id in ["1", "2", "3"] {
        store.insert(user(id, "n", "e"));
    }
    for id in ["1", "2", "3"] {
        assert_eq!(store.lookup(&id.to_string()).map(|u| u.id), Some(id.to_string()));
    }
}

#[test]
fn lookup_returns_a_copy() {
    let mut store = UserStore::new();
    store.insert(user("1", "name", "name@example.com"));
    let mut copy = store.lookup(&"1".to_string()).unwrap();
    copy.name = "changed".to_string();
    assert_eq!(store.lookup(&"1".to_string()), Some(user("1", "name", "name@example.com")));
}
