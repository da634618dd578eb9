use winvd::{ComObjects, CreationStep, Error, ExecutionScope, HResult, ScopeState, ServiceKind};

const KINDS: [ServiceKind; 6] = [
    ServiceKind::Provider,
    ServiceKind::Manager,
    ServiceKind::ManagerInternal,
    ServiceKind::NotificationService,
    ServiceKind::PinnedApps,
    ServiceKind::ViewCollection,
];

/// Follows the creation steps for `k`, handing in `handle` for whatever is
/// created.
fn obtain(objects: &mut ComObjects<u32>, k: ServiceKind, handle: u32) -> u32 {
    loop {
        match objects.next_step(k) {
            CreationStep::Ready => return *objects.get(k).unwrap(),
            CreationStep::CreateProvider => objects.install(ServiceKind::Provider, Ok(Some(1000))).unwrap(),
            CreationStep::Locate(kind) => objects.install(kind, Ok(Some(handle))).unwrap(),
        }
    }
}

#[test]
fn test_com_objects_non_thread_local() {
    let mut com_objects: ComObjects<u32> = ComObjects::new();
    let _provider = obtain(&mut com_objects, ServiceKind::Provider, 1);
    let _manager = obtain(&mut com_objects, ServiceKind::Manager, 2);
    let _manager_internal = obtain(&mut com_objects, ServiceKind::ManagerInternal, 3);
    let _notification_service = obtain(&mut com_objects, ServiceKind::NotificationService, 4);
    let _pinned_apps = obtain(&mut com_objects, ServiceKind::PinnedApps, 5);
    let _view_collection = obtain(&mut com_objects, ServiceKind::ViewCollection, 6);
}

#[test]
fn provider_is_created_first() {
    let mut objects: ComObjects<u32> = ComObjects::new();
    assert_eq!(objects.next_step(ServiceKind::Manager), CreationStep::CreateProvider);
    objects.install(ServiceKind::Provider, Ok(Some(10))).unwrap();
    assert_eq!(objects.next_step(ServiceKind::Manager), CreationStep::Locate(ServiceKind::Manager));
    assert_eq!(objects.next_step(ServiceKind::Provider), CreationStep::Ready);
}

#[test]
fn repeated_gets_return_the_same_handle() {
    let mut objects: ComObjects<u32> = ComObjects::new();
    assert_eq!(obtain(&mut objects, ServiceKind::PinnedApps, 42), 42);
    let first = objects.get(ServiceKind::PinnedApps).unwrap();
    let second = objects.get(ServiceKind::PinnedApps).unwrap();
    assert!(std::ptr::eq(first, second));
    // A later creation outcome never replaces a cached handle.
    assert_eq!(objects.install(ServiceKind::PinnedApps, Ok(Some(99))), Ok(()));
    assert_eq!(objects.install(ServiceKind::PinnedApps, Err(HResult(0x8000_4005))), Ok(()));
    assert_eq!(*objects.get(ServiceKind::PinnedApps).unwrap(), 42);
    assert_eq!(obtain(&mut objects, ServiceKind::PinnedApps, 7), 42);
}

#[test]
fn creation_failures() {
    let mut objects: ComObjects<u32> = ComObjects::new();
    assert_eq!(objects.get(ServiceKind::Manager), Err(Error::ServiceNotCreated));
    assert_eq!(objects.install(ServiceKind::Provider, Err(HResult(0x8000_4005))), Err(Error::ServiceNotCreated));
    assert_eq!(objects.install(ServiceKind::Provider, Ok(None)), Err(Error::ComAllocatedNullPtr));
    assert_eq!(objects.get(ServiceKind::Provider), Err(Error::ServiceNotCreated));
}

#[test]
fn teardown_then_release_scope() {
    let mut scope = ExecutionScope::new();
    assert_eq!(scope.state(), ScopeState::Uninitialized);
    assert_eq!(scope.enter(), Ok(()));
    assert_eq!(scope.state(), ScopeState::Active);
    assert_eq!(scope.enter(), Err(Error::ServiceNotCreated));
    let mut objects: ComObjects<u32> = ComObjects::new();
    for (n, k) in KINDS.iter().enumerate() {
        obtain(&mut objects, *k, n as u32);
    }
    assert_eq!(scope.release(&objects), Err(Error::ServiceNotCreated));
    assert_eq!(scope.state(), ScopeState::Active);
    objects.teardown();
    for k in KINDS {
        assert_eq!(objects.get(k), Err(Error::ServiceNotCreated));
    }
    assert_eq!(scope.release(&objects), Ok(()));
    assert_eq!(scope.state(), ScopeState::Released);
    assert_eq!(scope.release(&objects), Err(Error::ServiceNotCreated));
}
