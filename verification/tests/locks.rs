use std::sync::Arc;
use std::sync::Mutex;
use vbranch_core::locks::LockRegistry;
use vbranch_core::locks::PERMITS_PER_PROJECT;

#[test]
fn a_new_registry_has_seen_no_project() {
    assert_eq!(LockRegistry::new().len(), 0);
}

#[test]
fn each_project_has_a_single_permit() {
    assert_eq!(PERMITS_PER_PROJECT, 1);
    let mut registry = LockRegistry::new();
    let permit = registry.permit("project");
    assert_eq!(permit.available_permits(), 1);
    let held = permit.try_acquire().unwrap();
    assert_eq!(permit.available_permits(), 0);
    assert!(permit.try_acquire().is_err());
    drop(held);
    assert!(permit.try_acquire().is_ok());
}

#[test]
fn a_project_keeps_its_semaphore() {
    let mut registry = LockRegistry::new();
    let first = registry.permit("project");
    let second = registry.permit("project");
    assert!(Arc::ptr_eq(&first, &second));
    assert_eq!(registry.len(), 1);

    // Two calls for one project never hold the permit together.
    let held = first.try_acquire().unwrap();
    assert!(second.try_acquire().is_err());
    assert!(registry.permit("project").try_acquire().is_err());
    drop(held);
    assert!(second.try_acquire().is_ok());
}

#[test]
fn projects_do_not_block_each_other() {
    let mut registry = LockRegistry::new();
    let one = registry.permit("one");
    let other = registry.permit("other");
    assert!(!Arc::ptr_eq(&one, &other));
    assert_eq!(registry.len(), 2);

    let held_one = one.try_acquire().unwrap();
    let held_other = other.try_acquire().unwrap();
    assert!(one.try_acquire().is_err());
    assert!(other.try_acquire().is_err());
    drop(held_one);
    assert!(one.try_acquire().is_ok());
    assert!(other.try_acquire().is_err());
    drop(held_other);
}

#[test]
fn the_registry_only_grows() {
    let mut registry = LockRegistry::new();
    let first = registry.permit("a");
    for name in ["b", "c", "a", "d", "b", ""] {
        registry.permit(name);
    }
    assert_eq!(registry.len(), 5);
    assert!(Arc::ptr_eq(&first, &registry.permit("a")));
    assert_eq!(registry.len(), 5);
}

#[test]
fn project_names_are_compared_whole() {
    let mut registry = LockRegistry::new();
    let short = registry.permit("project");
    let long = registry.permit("project2");
    let upper = registry.permit("Project");
    assert!(!Arc::ptr_eq(&short, &long));
    assert!(!Arc::ptr_eq(&short, &upper));
    assert_eq!(registry.len(), 3);
}

#[test]
fn registries_are_independent() {
    let mut one = LockRegistry::new();
    let mut other = LockRegistry::new();
    let held = one.permit("project");
    let _guard = held.try_acquire().unwrap();
    assert!(other.permit("project").try_acquire().is_ok());
}

#[test]
fn waiters_get_the_permit_in_the_order_they_came() {
    let runtime = tokio::runtime::Builder::new_current_thread()
        .build()
        .unwrap();
    runtime.block_on(async {
        let mut registry = LockRegistry::new();
        let order: Arc<Mutex<Vec<u32>>> = Arc::new(Mutex::new(Vec::new()));
        let held = registry.permit("project").acquire_owned().await.unwrap();

        let mut waiters = Vec::new();
        for number in 1..=3u32 {
            let permit = registry.permit("project");
            let order = order.clone();
            waiters.push(tokio::spawn(async move {
                let _held = permit.acquire_owned().await.unwrap();
                order.lock().unwrap().push(number);
                tokio::task::yield_now().await;
            }));
            // Let the waiter reach the queue before the next one is made.
            tokio::task::yield_now().await;
        }
        assert!(order.lock().unwrap().is_empty());

        drop(held);
        for waiter in waiters {
            waiter.await.unwrap();
        }
        assert_eq!(*order.lock().unwrap(), vec![1, 2, 3]);
    });
}

#[test]
fn calls_for_one_project_do_not_overlap() {
    let runtime = tokio::runtime::Builder::new_current_thread()
        .build()
        .unwrap();
    runtime.block_on(async {
        let mut registry = LockRegistry::new();
        let running: Arc<Mutex<u32>> = Arc::new(Mutex::new(0));
        let most: Arc<Mutex<u32>> = Arc::new(Mutex::new(0));
        let mut calls = Vec::new();
        for _ in 0..4 {
            let permit = registry.permit("project");
            let running = running.clone();
            let most = most.clone();
            calls.push(tokio::spawn(async move {
                let _held = permit.acquire_owned().await.unwrap();
                {
                    let mut now = running.lock().unwrap();
                    *now += 1;
                    let mut peak = most.lock().unwrap();
                    *peak = (*peak).max(*now);
                }
                for _ in 0..5 {
                    tokio::task::yield_now().await;
                }
                *running.lock().unwrap() -= 1;
            }));
        }
        for call in calls {
            call.await.unwrap();
        }
        assert_eq!(*most.lock().unwrap(), 1);
    });
}

#[test]
fn calls_for_different_projects_may_overlap() {
    let runtime = tokio::runtime::Builder::new_current_thread()
        .build()
        .unwrap();
    runtime.block_on(async {
        let mut registry = LockRegistry::new();
        let running: Arc<Mutex<u32>> = Arc::new(Mutex::new(0));
        let most: Arc<Mutex<u32>> = Arc::new(Mutex::new(0));
        let mut calls = Vec::new();
        for name in ["one", "other"] {
            let permit = registry.permit(name);
            let running = running.clone();
            let most = most.clone();
            calls.push(tokio::spawn(async move {
                let _held = permit.acquire_owned().await.unwrap();
                {
                    let mut now = running.lock().unwrap();
                    *now += 1;
                    let mut peak = most.lock().unwrap();
                    *peak = (*peak).max(*now);
                }
                for _ in 0..5 {
                    tokio::task::yield_now().await;
                }
                *running.lock().unwrap() -= 1;
            }));
        }
        for call in calls {
            call.await.unwrap();
        }
        assert_eq!(*most.lock().unwrap(), 2);
    });
}
