use task_manager::cache::{Cache, CacheValue, CACHE_TTL_SECONDS};
use task_manager::errors::{CacheError, TaskError};
use task_manager::keys::{item_key, list_key, CacheKey};
use task_manager::model::{create_task_response, Task, TaskResponseData};
use task_manager::store::Store;
use task_manager::config::{postgres_url, redis_url, Database, Redis};

fn task(id: &str, title: &str, owner: &str) -> Task {
    Task {
        id: id.to_string(),
        title: title.to_string(),
        description: "d".to_string(),
        completed: false,
        owner: owner.to_string(),
    }
}

fn item_key_of(owner: &str, id: &str) -> CacheKey {
    CacheKey::item(&owner.to_string(), &id.to_string())
}

fn list_key_of(owner: &str) -> CacheKey {
    CacheKey::list(&owner.to_string())
}

#[test]
fn keys_compose_namespace_owner_and_id() {
    assert_eq!(list_key("u1"), "task::u1");
    assert_eq!(item_key("u1", "t1"), "task::u1::t1");
    assert_eq!(list_key_of("u1").render(), "task::u1");
    assert_eq!(item_key_of("u1", "t1").render(), "task::u1::t1");
}

#[test]
fn cache_set_then_get_round_trips() {
    let mut cache = Cache::new();
    cache
        .set(item_key_of("u1", "t1"), CacheValue::One(task("t1", "A", "u1")))
        .unwrap();
    match cache.get(&item_key_of("u1", "t1")) {
        Ok(CacheValue::One(t)) => {
            assert_eq!(t.title, "A");
            assert_eq!(t.owner, "u1");
        }
        other => panic!("expected a cached task, got {:?}", other),
    }
}

#[test]
fn cache_get_missing_is_not_found() {
    let cache = Cache::new();
    assert!(matches!(
        cache.get(&item_key_of("u1", "t1")),
        Err(CacheError::NotFound)
    ));
}

#[test]
fn cache_entry_lapses_after_ttl() {
    let mut cache = Cache::new();
    let key = list_key_of("u1");
    cache
        .set(CacheKey::list(&"u1".to_string()), CacheValue::Many(vec![task("t1", "A", "u1")]))
        .unwrap();
    // just before the expiry the entry still answers
    cache.tick(CACHE_TTL_SECONDS - 1);
    assert!(cache.get(&key).is_ok());
    // at the expiry it no longer does
    cache.tick(1);
    assert!(matches!(cache.get(&key), Err(CacheError::NotFound)));
}

#[test]
fn cache_delete_is_idempotent() {
    let mut cache = Cache::new();
    let key = item_key_of("u1", "t1");
    assert_eq!(cache.delete(&key), Ok(()));
    cache
        .set(item_key_of("u1", "t1"), CacheValue::One(task("t1", "A", "u1")))
        .unwrap();
    assert_eq!(cache.delete(&key), Ok(()));
    assert!(matches!(cache.get(&key), Err(CacheError::NotFound)));
}

#[test]
fn cache_offline_reports_backend_error() {
    let mut cache = Cache::new();
    cache.go_offline();
    assert!(matches!(
        cache.get(&list_key_of("u1")),
        Err(CacheError::Backend)
    ));
    assert!(matches!(
        cache.set(list_key_of("u1"), CacheValue::Many(vec![task("t", "A", "u1")])),
        Err(CacheError::Backend)
    ));
    assert!(matches!(cache.delete(&list_key_of("u1")), Err(CacheError::Backend)));
    cache.go_online();
    assert!(matches!(cache.get(&list_key_of("u1")), Err(CacheError::NotFound)));
}

#[test]
fn backend_urls_compose_from_config() {
    let r = Redis {
        host: "cache.local".to_string(),
        port: "6379".to_string(),
        database: "0".to_string(),
        timeout: 5,
    };
    assert_eq!(redis_url(&r), "redis://cache.local:6379/0");
    let d = Database {
        username: "svc".to_string(),
        password: "pw".to_string(),
        host: "db.local".to_string(),
        port: "5432".to_string(),
        database: "tasks".to_string(),
    };
    assert_eq!(postgres_url(&d), "postgres://svc:pw@db.local/tasks");
}

#[test]
fn store_insert_refuses_duplicate_id() {
    let mut store = Store::new();
    store.insert(task("t1", "A", "u1")).unwrap();
    assert_eq!(
        store.insert(task("t1", "B", "u2")),
        Err(TaskError::DuplicateId)
    );
}

#[test]
fn store_query_filters_by_owner_in_order() {
    let mut store = Store::new();
    store.insert(task("t1", "A", "u1")).unwrap();
    store.insert(task("t2", "B", "u2")).unwrap();
    store.insert(task("t3", "C", "u1")).unwrap();
    let rows = store.find_by_owner(&"u1".to_string()).unwrap();
    assert_eq!(rows.len(), 2);
    assert_eq!(rows[0].id, "t1");
    assert_eq!(rows[1].id, "t3");
}

#[test]
fn store_find_requires_both_id_and_owner() {
    let mut store = Store::new();
    store.insert(task("t1", "A", "u1")).unwrap();
    assert!(store
        .find_by_id_owner(&"t1".to_string(), &"u1".to_string())
        .unwrap()
        .is_some());
    assert!(store
        .find_by_id_owner(&"t1".to_string(), &"u2".to_string())
        .unwrap()
        .is_none());
}

#[test]
fn response_envelope_carries_what_was_given() {
    let r = create_task_response("200", "success", None);
    assert_eq!(r.code, "200");
    assert_eq!(r.description, "success");
    assert!(r.data.is_none());
    let with_data = create_task_response(
        "200",
        "success",
        Some(TaskResponseData::Task(task("t1", "A", "u1"))),
    );
    match with_data.data {
        Some(TaskResponseData::Task(t)) => assert_eq!(t.id, "t1"),
        _ => panic!("expected a task payload"),
    }
}

#[test]
fn error_messages_match_the_validation_wording() {
    assert_eq!(TaskError::EmptyUserId.message(), "user_id cannot be empty");
    assert_eq!(TaskError::EmptyTaskId.message(), "task_id cannot be empty");
    assert_eq!(TaskError::EmptyTitle.message(), "title cannot be empty");
    assert_eq!(
        TaskError::EmptyDescription.message(),
        "description cannot be empty"
    );
    assert_eq!(TaskError::NotFound.message(), "task not found");
    assert_eq!(TaskError::DuplicateId.message(), "task id already exists");
    assert_eq!(
        TaskError::StoreUnavailable.message(),
        "store backend unavailable"
    );
}
