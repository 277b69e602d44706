use gc_handles::Engine;
use gc_handles::HandleError;
use gc_handles::HandleHost;
use gc_handles::IsolateHandle;

#[test]
fn scope_hosts_always_match() {
    let mut engine = Engine::new(16);
    let isolate = engine.create_isolate();
    assert!(HandleHost::Scope.match_host(HandleHost::Scope, None));
    assert!(HandleHost::Scope.match_host(HandleHost::Scope, Some(&isolate)));
}

#[test]
fn instance_hosts_match_by_address() {
    let mut engine = Engine::new(16);
    let first = engine.create_isolate();
    let second = engine.create_isolate();
    let a = HandleHost::from_isolate(&first);
    let b = HandleHost::from_isolate(&second);
    assert_eq!(a, HandleHost::Isolate(1));
    assert_eq!(b, HandleHost::Isolate(2));
    assert!(a.match_host(a, None));
    assert!(!a.match_host(b, None));
    assert!(!b.match_host(a, None));
    // The hint plays no part when both hosts name their instance.
    assert!(a.match_host(a, Some(&second)));
    assert!(!a.match_host(b, Some(&first)));
}

#[test]
fn scope_host_is_resolved_by_the_hint() {
    let mut engine = Engine::new(16);
    let first = engine.create_isolate();
    let second = engine.create_isolate();
    let a = HandleHost::from_isolate(&first);
    assert!(HandleHost::Scope.match_host(a, Some(&first)));
    assert!(a.match_host(HandleHost::Scope, Some(&first)));
    assert!(!HandleHost::Scope.match_host(a, Some(&second)));
    assert!(!a.match_host(HandleHost::Scope, Some(&second)));
}

#[test]
fn scope_host_without_hint_is_permissive() {
    let mut engine = Engine::new(16);
    let first = engine.create_isolate();
    let a = HandleHost::from_isolate(&first);
    assert!(HandleHost::Scope.match_host(a, None));
    assert!(a.match_host(HandleHost::Scope, None));
}

#[test]
fn match_isolate_accepts_own_instance_and_scope() {
    let mut engine = Engine::new(16);
    let first = engine.create_isolate();
    let second = engine.create_isolate();
    assert!(HandleHost::from_isolate(&first).match_isolate(&first));
    assert!(!HandleHost::from_isolate(&first).match_isolate(&second));
    assert!(HandleHost::Scope.match_isolate(&first));
    assert!(HandleHost::Scope.match_isolate(&second));
}

#[test]
fn assert_match_accepts_matching_hosts() {
    let mut engine = Engine::new(16);
    let first = engine.create_isolate();
    let a = HandleHost::from_isolate(&first);
    a.assert_match_host(a, None);
    a.assert_match_isolate(&first);
    HandleHost::Scope.assert_match_isolate(&first);
}

#[test]
fn check_reports_host_mismatch() {
    let mut engine = Engine::new(16);
    let first = engine.create_isolate();
    let second = engine.create_isolate();
    let a = HandleHost::from_isolate(&first);
    let b = HandleHost::from_isolate(&second);
    assert_eq!(a.check_match_host(b, None), Err(HandleError::HostMismatch));
    assert_eq!(b.check_match_host(a, None), Err(HandleError::HostMismatch));
    assert_eq!(a.check_match_isolate(&second), Err(HandleError::HostMismatch));
    assert_eq!(b.check_match_isolate(&first), Err(HandleError::HostMismatch));
    assert_eq!(a.check_match_isolate(&first), Ok(()));
    assert_eq!(HandleHost::Scope.check_match_isolate(&second), Ok(()));
}

#[test]
fn check_reports_disposal_before_mismatch() {
    let mut engine = Engine::new(16);
    let first = engine.create_isolate();
    let a = HandleHost::from_isolate(&first);
    let gone = HandleHost::DisposedIsolate;
    assert_eq!(gone.check_match_host(a, None), Err(HandleError::DisposedInstanceAccess));
    assert_eq!(a.check_match_host(gone, None), Err(HandleError::DisposedInstanceAccess));
    assert_eq!(gone.check_match_host(gone, None), Err(HandleError::DisposedInstanceAccess));
    assert_eq!(
        gone.check_match_host(HandleHost::Scope, Some(&first)),
        Err(HandleError::DisposedInstanceAccess)
    );
    assert_eq!(gone.check_match_isolate(&first), Err(HandleError::DisposedInstanceAccess));
}

#[test]
fn error_messages_tell_disposal_from_mismatch() {
    assert_eq!(
        HandleError::HostMismatch.message(),
        "attempt to use Handle in an Isolate that is not its host"
    );
    assert_eq!(
        HandleError::DisposedInstanceAccess.message(),
        "attempt to access Handle hosted by disposed Isolate"
    );
    assert_ne!(
        HandleError::HostMismatch.message(),
        HandleError::DisposedInstanceAccess.message()
    );
}

#[test]
fn host_of_isolate_handle_follows_liveness() {
    let mut engine = Engine::new(16);
    let first = engine.create_isolate();
    let handle = first.thread_safe_handle();
    assert_eq!(handle.get_isolate_ptr(&engine), 1);
    assert_eq!(HandleHost::from_isolate_handle(&engine, &handle), HandleHost::Isolate(1));
    engine.dispose_isolate(first);
    assert_eq!(handle.get_isolate_ptr(&engine), 0);
    assert_eq!(HandleHost::from_isolate_handle(&engine, &handle), HandleHost::DisposedIsolate);
}

#[test]
fn host_of_unknown_instance_is_disposed() {
    let engine = Engine::new(16);
    let handle = IsolateHandle::from_address(7);
    assert_eq!(handle.get_isolate_ptr(&engine), 0);
    assert_eq!(HandleHost::from_isolate_handle(&engine, &handle), HandleHost::DisposedIsolate);
    let null = IsolateHandle::from_address(0);
    assert_eq!(HandleHost::from_isolate_handle(&engine, &null), HandleHost::DisposedIsolate);
}

#[test]
fn get_isolate_returns_the_address() {
    let mut engine = Engine::new(16);
    let _first = engine.create_isolate();
    let second = engine.create_isolate();
    let host = HandleHost::from_isolate(&second);
    assert_eq!(host.get_isolate(), 2);
    let handle = host.get_isolate_handle();
    assert_eq!(handle.get_isolate_ptr(&engine), 2);
}

#[test]
fn host_from_address_tells_null_from_an_instance() {
    assert_eq!(HandleHost::from_address(0), HandleHost::DisposedIsolate);
    assert_eq!(HandleHost::from_address(1), HandleHost::Isolate(1));
    assert_eq!(HandleHost::from_address(usize::MAX), HandleHost::Isolate(usize::MAX));
}

#[test]
fn check_alive_reports_disposal_only() {
    assert_eq!(HandleHost::DisposedIsolate.check_alive(), Err(HandleError::DisposedInstanceAccess));
    assert_eq!(HandleHost::Isolate(3).check_alive(), Ok(()));
    assert_eq!(HandleHost::Scope.check_alive(), Ok(()));
}

#[test]
fn check_get_isolate_says_why_there_is_no_instance() {
    assert_eq!(HandleHost::Isolate(3).check_get_isolate(), Ok(3));
    assert_eq!(HandleHost::Scope.check_get_isolate(), Err(HandleError::HostUnavailable));
    assert_eq!(
        HandleHost::DisposedIsolate.check_get_isolate(),
        Err(HandleError::DisposedInstanceAccess)
    );
    assert_eq!(HandleError::HostUnavailable.message(), "host Isolate for Handle not available");
}
