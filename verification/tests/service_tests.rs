use task_manager::errors::TaskError;
use task_manager::model::{Task, TaskRequest};
use task_manager::repository::TaskRepository;
use task_manager::service::TaskService;
use task_manager::store::Store;
use task_manager::cache::Cache;

fn fresh_service() -> TaskService {
    TaskService::new(TaskRepository::new(Store::new(), Cache::new()))
}

fn request(title: &str, description: &str, completed: bool) -> TaskRequest {
    TaskRequest {
        title: title.to_string(),
        description: description.to_string(),
        completed,
    }
}

#[test]
fn insert_assigns_owner_and_fresh_id() {
    let mut service = fresh_service();
    let t = service
        .insert(request("A", "B", false), "u1".to_string())
        .unwrap();
    assert_eq!(t.owner, "u1");
    assert_eq!(t.title, "A");
    assert_eq!(t.description, "B");
    assert!(!t.completed);
    // a version-4 identifier prints as 36 characters
    assert_eq!(t.id.len(), 36);
}

#[test]
fn insert_ids_unique_across_calls() {
    let mut service = fresh_service();
    let t1 = service
        .insert(request("A", "B", false), "u1".to_string())
        .unwrap();
    let t2 = service
        .insert(request("A", "B", false), "u1".to_string())
        .unwrap();
    assert_ne!(t1.id, t2.id);
}

#[test]
fn insert_validation_errors() {
    let mut service = fresh_service();
    assert_eq!(
        service.insert(request("A", "B", false), "".to_string()),
        Err(TaskError::EmptyUserId)
    );
    assert_eq!(
        service.insert(request("", "B", false), "u1".to_string()),
        Err(TaskError::EmptyTitle)
    );
    assert_eq!(
        service.insert(request("A", "", false), "u1".to_string()),
        Err(TaskError::EmptyDescription)
    );
}

#[test]
fn insert_with_id_refuses_duplicate() {
    let mut service = fresh_service();
    let first = service.insert_with_id(
        request("A", "B", false),
        "u1".to_string(),
        "id-1".to_string(),
    );
    assert!(first.is_ok());
    let second = service.insert_with_id(
        request("C", "D", true),
        "u2".to_string(),
        "id-1".to_string(),
    );
    assert_eq!(second, Err(TaskError::DuplicateId));
}

#[test]
fn scenario_insert_read_update_read() {
    let mut service = fresh_service();
    let t = service
        .insert(request("A", "B", false), "u1".to_string())
        .unwrap();
    let read = service
        .find_by_id(t.id.clone(), "u1".to_string())
        .unwrap()
        .expect("task must be found after insert");
    assert_eq!(read.title, "A");
    assert_eq!(read.description, "B");
    assert!(!read.completed);
    assert_eq!(read.owner, "u1");

    let updated = service
        .update(request("C", "D", true), t.id.clone(), "u1".to_string())
        .unwrap();
    assert_eq!(updated.title, "C");
    assert_eq!(updated.description, "D");
    assert!(updated.completed);

    let reread = service
        .find_by_id(t.id.clone(), "u1".to_string())
        .unwrap()
        .expect("task must still be found after update");
    assert_eq!(reread.title, "C");
    assert_eq!(reread.description, "D");
    assert!(reread.completed);
    assert_eq!(reread.owner, "u1");
}

#[test]
fn scenario_empty_collection_not_cached() {
    let mut service = fresh_service();
    let empty = service.find_all("u1".to_string()).unwrap();
    assert!(empty.is_empty());
    // the empty result was not cached, so a task inserted right after is seen
    service
        .insert(request("A", "B", false), "u1".to_string())
        .unwrap();
    let one = service.find_all("u1".to_string()).unwrap();
    assert_eq!(one.len(), 1);
    assert_eq!(one[0].title, "A");
}

#[test]
fn find_all_validates_user_id() {
    let mut service = fresh_service();
    assert_eq!(
        service.find_all("".to_string()),
        Err(TaskError::EmptyUserId)
    );
}

#[test]
fn find_by_id_validates_task_id_only() {
    let mut service = fresh_service();
    assert_eq!(
        service.find_by_id("".to_string(), "u1".to_string()),
        Err(TaskError::EmptyTaskId)
    );
    // an empty identity is deliberately not rejected here; it just finds nothing
    assert_eq!(service.find_by_id("t1".to_string(), "".to_string()), Ok(None));
}

#[test]
fn find_by_id_absent_is_none_not_error() {
    let mut service = fresh_service();
    assert_eq!(
        service.find_by_id("missing".to_string(), "u1".to_string()),
        Ok(None)
    );
}

#[test]
fn update_validation_errors() {
    let mut service = fresh_service();
    assert_eq!(
        service.update(request("A", "B", false), "t1".to_string(), "".to_string()),
        Err(TaskError::EmptyUserId)
    );
    assert_eq!(
        service.update(request("A", "B", false), "".to_string(), "u1".to_string()),
        Err(TaskError::EmptyTaskId)
    );
    assert_eq!(
        service.update(request("", "B", false), "t1".to_string(), "u1".to_string()),
        Err(TaskError::EmptyTitle)
    );
    assert_eq!(
        service.update(request("A", "", false), "t1".to_string(), "u1".to_string()),
        Err(TaskError::EmptyDescription)
    );
}

#[test]
fn update_absent_task_is_not_found() {
    let mut service = fresh_service();
    assert_eq!(
        service.update(
            request("A", "B", false),
            "missing".to_string(),
            "u1".to_string()
        ),
        Err(TaskError::NotFound)
    );
}

#[test]
fn update_never_touches_other_owner() {
    let mut service = fresh_service();
    service
        .insert_with_id(request("A", "B", false), "u1".to_string(), "id-1".to_string())
        .unwrap();
    service
        .insert_with_id(request("X", "Y", false), "u2".to_string(), "id-2".to_string())
        .unwrap();
    // u2 cannot update u1's task: the lookup is owner-scoped
    assert_eq!(
        service.update(request("C", "D", true), "id-1".to_string(), "u2".to_string()),
        Err(TaskError::NotFound)
    );
    let untouched = service
        .find_by_id("id-1".to_string(), "u1".to_string())
        .unwrap()
        .unwrap();
    assert_eq!(untouched.title, "A");
}

#[test]
fn delete_validates_task_id() {
    let mut service = fresh_service();
    assert_eq!(
        service.delete("".to_string(), "u1".to_string()),
        Err(TaskError::EmptyTaskId)
    );
}

#[test]
fn delete_absent_task_succeeds() {
    let mut service = fresh_service();
    assert_eq!(service.delete("missing".to_string(), "u1".to_string()), Ok(()));
}

#[test]
fn delete_never_touches_other_owner() {
    let mut service = fresh_service();
    service
        .insert_with_id(request("A", "B", false), "u1".to_string(), "id-1".to_string())
        .unwrap();
    // u2 deleting u1's id succeeds (idempotence) but removes nothing
    assert_eq!(service.delete("id-1".to_string(), "u2".to_string()), Ok(()));
    let kept = service
        .find_by_id("id-1".to_string(), "u1".to_string())
        .unwrap();
    assert!(kept.is_some());
    // the owner can delete it
    assert_eq!(service.delete("id-1".to_string(), "u1".to_string()), Ok(()));
    assert_eq!(
        service.find_by_id("id-1".to_string(), "u1".to_string()),
        Ok(None)
    );
}

#[test]
fn store_unavailable_propagates() {
    let mut service = fresh_service();
    service.repository.store.go_offline();
    assert_eq!(
        service.insert(request("A", "B", false), "u1".to_string()),
        Err(TaskError::StoreUnavailable)
    );
    assert_eq!(
        service.find_all("u1".to_string()),
        Err(TaskError::StoreUnavailable)
    );
    assert_eq!(
        service.find_by_id("t1".to_string(), "u1".to_string()),
        Err(TaskError::StoreUnavailable)
    );
    assert_eq!(
        service.update(request("A", "B", false), "t1".to_string(), "u1".to_string()),
        Err(TaskError::StoreUnavailable)
    );
    assert_eq!(
        service.delete("t1".to_string(), "u1".to_string()),
        Err(TaskError::StoreUnavailable)
    );
}

#[test]
fn cache_failure_degrades_to_store() {
    let mut service = fresh_service();
    service.repository.cache.go_offline();
    let t = service
        .insert(request("A", "B", false), "u1".to_string())
        .unwrap();
    // every read and write still works against the store alone
    let read = service
        .find_by_id(t.id.clone(), "u1".to_string())
        .unwrap()
        .unwrap();
    assert_eq!(read.title, "A");
    let all = service.find_all("u1".to_string()).unwrap();
    assert_eq!(all.len(), 1);
    let updated = service
        .update(request("C", "D", true), t.id.clone(), "u1".to_string())
        .unwrap();
    assert_eq!(updated.title, "C");
    assert_eq!(service.delete(t.id.clone(), "u1".to_string()), Ok(()));
    assert_eq!(service.find_all("u1".to_string()), Ok(vec![]));
}

#[test]
fn stale_cached_task_cannot_steer_update_onto_other_owner() {
    let mut service = fresh_service();
    // u2 creates and reads a task, so its cache entry exists
    service
        .insert_with_id(request("A", "B", false), "u2".to_string(), "id-1".to_string())
        .unwrap();
    service
        .find_by_id("id-1".to_string(), "u2".to_string())
        .unwrap();
    // the cache goes away, so deleting skips the invalidation
    service.repository.cache.go_offline();
    service.delete("id-1".to_string(), "u2".to_string()).unwrap();
    service.repository.cache.go_online();
    // the freed id is taken by u1
    service
        .insert_with_id(request("X", "Y", false), "u1".to_string(), "id-1".to_string())
        .unwrap();
    // u2's update rides the stale cache entry, but the store write is
    // scoped to id and owner: u1's task survives untouched
    let _ = service.update(request("C", "D", true), "id-1".to_string(), "u2".to_string());
    let kept = service
        .find_by_id("id-1".to_string(), "u1".to_string())
        .unwrap()
        .unwrap();
    assert_eq!(kept.title, "X");
    assert_eq!(kept.description, "Y");
    assert_eq!(kept.owner, "u1");
}

#[test]
fn collection_cache_is_stale_after_insert() {
    let mut service = fresh_service();
    service
        .insert_with_id(request("A", "B", false), "u1".to_string(), "id-1".to_string())
        .unwrap();
    // this read caches the one-task collection
    assert_eq!(service.find_all("u1".to_string()).unwrap().len(), 1);
    service
        .insert_with_id(request("C", "D", false), "u1".to_string(), "id-2".to_string())
        .unwrap();
    // the collection key is not invalidated on insert: the cached snapshot
    // still answers until it lapses
    assert_eq!(service.find_all("u1".to_string()).unwrap().len(), 1);
    // once the entry lapses, the store answers with both tasks
    service.repository.cache.tick(300);
    assert_eq!(service.find_all("u1".to_string()).unwrap().len(), 2);
}

#[test]
fn collection_query_is_limited_to_ten() {
    let mut service = fresh_service();
    for i in 0..12 {
        service
            .insert(request(&format!("T{}", i), "B", false), "u1".to_string())
            .unwrap();
    }
    assert_eq!(service.find_all("u1".to_string()).unwrap().len(), 10);
}
