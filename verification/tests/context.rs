use std::sync::Arc;
use user_directory::context::{create_context, seed_user, Context};
use user_directory::schema::{Mutation, Query};
use user_directory::user::User;

fn user(id: &str, name: &str, email: &str) -> User {
    User::new(id.to_string(), name.to_string(), email.to_string())
}

#[test]
fn new_context_is_empty() {
    let context = Context::new();
    assert_eq!(context.find_user(&"1".to_string()), None);
}

#[test]
fn seed_user_is_user_one() {
    assert_eq!(seed_user(), user("1", "name", "name@example.com"));
}

#[test]
fn created_context_holds_the_seed_record() {
    let context = create_context();
    assert_eq!(
        context.find_user(&"1".to_string()),
        Some(user("1", "name", "name@example.com"))
    );
    assert_eq!(context.find_user(&"2".to_string()), None);
}

#[test]
fn add_user_is_seen_by_find_user() {
    let context = Context::new();
    let u = user("9", "Nine", "nine@example.com");
    context.add_user(&u);
    assert_eq!(context.find_user(&"9".to_string()), Some(u));
}

#[test]
fn add_user_twice_keeps_the_last() {
    let context = Context::new();
    context.add_user(&user("x", "first", "first@example.com"));
    context.add_user(&user("x", "second", "second@example.com"));
    assert_eq!(
        context.find_user(&"x".to_string()),
        Some(user("x", "second", "second@example.com"))
    );
}

#[test]
fn cloned_context_shares_the_store() {
    let context = Context::new();
    let other = context.clone();
    other.add_user(&user("5", "Five", "five@example.com"));
    assert_eq!(
        context.find_user(&"5".to_string()),
        Some(user("5", "Five", "five@example.com"))
    );
    context.add_user(&user("6", "Six", "six@example.com"));
    assert_eq!(other.find_user(&"6".to_string()).map(|u| u.name), Some("Six".to_string()));
}

#[test]
fn query_user_on_a_miss_is_null_without_error() {
    let context = Context::new();
    let resolved = Query::user(&context, "missing".to_string());
    assert_eq!(resolved.ok(), Some(None));
}

#[test]
fn query_user_finds_the_seed_record() {
    let context = create_context();
    let resolved = Query::user(&context, "1".to_string());
    assert_eq!(resolved.ok(), Some(Some(user("1", "name", "name@example.com"))));
}

#[test]
fn create_user_returns_and_stores_the_record() {
    let context = create_context();
    let created = Mutation::create_user(
        &context,
        "2".to_string(),
        "name".to_string(),
        "name@example.com".to_string(),
    );
    assert_eq!(created.ok(), Some(user("2", "name", "name@example.com")));
    let read = Query::user(&context, "2".to_string());
    assert_eq!(read.ok(), Some(Some(user("2", "name", "name@example.com"))));
}

#[test]
fn later_mutation_under_one_id_is_the_one_read_back() {
    let context = Context::new();
    let a = Mutation::create_user(&context, "x".to_string(), "a".to_string(), "a@x".to_string());
    let b = Mutation::create_user(&context, "x".to_string(), "b".to_string(), "b@x".to_string());
    assert_eq!(a.ok().map(|u| u.id), Some("x".to_string()));
    assert_eq!(b.ok().map(|u| u.id), Some("x".to_string()));
    let read = Query::user(&context, "x".to_string());
    assert_eq!(read.ok(), Some(Some(user("x", "b", "b@x"))));
}

#[test]
fn parallel_creations_with_distinct_ids_are_all_retrievable() {
    let context = Arc::new(create_context());
    let mut runtime = tokio::runtime::Builder::new()
        .threaded_scheduler()
        .core_threads(4)
        .build()
        .unwrap();
    let mut tasks = Vec::new();
    for t in 0..8u32 {
        let shared = Arc::clone(&context);
        tasks.push(runtime.spawn(async move {
            let mut made = 0u32;
            for k in 0..50u32 {
                let id = format!("{}-{}", t, k);
                let created =
                    Mutation::create_user(&shared, id.clone(), format!("n{}", k), id.clone());
                if created.is_ok() {
                    made += 1;
                }
            }
            made
        }));
    }
    for task in tasks {
        assert_eq!(runtime.block_on(task).unwrap(), 50);
    }
    for t in 0..8u32 {
        for k in 0..50u32 {
            let id = format!("{}-{}", t, k);
            assert_eq!(context.find_user(&id), Some(user(&id, &format!("n{}", k), &id)));
        }
    }
    assert_eq!(context.find_user(&"1".to_string()), Some(user("1", "name", "name@example.com")));
}
