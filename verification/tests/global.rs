use std::collections::hash_map::DefaultHasher;
use std::hash::Hasher;

use gc_handles::Engine;
use gc_handles::Global;
use gc_handles::Handle;
use gc_handles::HandleError;
use gc_handles::HandleHost;
use gc_handles::HandleScope;
use gc_handles::Local;
use gc_handles::Object;
use gc_handles::StorageCell;

struct Value;

fn new_object<'s>(engine: &mut Engine, scope: &'s HandleScope) -> Local<'s, Value> {
    Local::from_raw(engine.allocate(scope)).unwrap()
}

#[test]
fn global_new_opens_to_the_object_of_its_source() {
    let mut engine = Engine::new(16);
    let isolate = engine.create_isolate();
    let scope = HandleScope::new(&mut engine, &isolate);
    let local = new_object(&mut engine, &scope);
    let global = Global::new(&mut engine, &isolate, &local);
    assert_eq!(global.open(&engine, &isolate), local.deref(&engine));
    assert_eq!(global.open(&engine, &isolate), Object { id: 1 });
    assert_eq!(engine.cell(2), StorageCell::Persistent { isolate: 1, object: Object { id: 1 } });
}

#[test]
fn dropping_a_global_leaves_the_local_valid() {
    let mut engine = Engine::new(16);
    let isolate = engine.create_isolate();
    let scope = HandleScope::new(&mut engine, &isolate);
    let local = new_object(&mut engine, &scope);
    let global = Global::new(&mut engine, &isolate, &local);
    global.drop(&mut engine);
    assert_eq!(engine.cell(2), StorageCell::Released);
    assert!(engine.is_live(local.as_non_null()));
    assert_eq!(local.deref(&engine), Object { id: 1 });
}

#[test]
fn global_outlives_the_scope_of_its_source() {
    let mut engine = Engine::new(16);
    let isolate = engine.create_isolate();
    let scope = HandleScope::new(&mut engine, &isolate);
    let global = {
        let local = new_object(&mut engine, &scope);
        Global::new(&mut engine, &isolate, &local)
    };
    scope.exit(&mut engine);
    assert!(!engine.is_live(1));
    assert_eq!(global.open(&engine, &isolate), Object { id: 1 });
}

#[test]
fn global_clone_is_an_independent_reference() {
    let mut engine = Engine::new(16);
    let isolate = engine.create_isolate();
    let scope = HandleScope::new(&mut engine, &isolate);
    let local = new_object(&mut engine, &scope);
    let global = Global::new(&mut engine, &isolate, &local);
    let clone = global.clone(&mut engine);
    assert_eq!(clone.open(&engine, &isolate), global.open(&engine, &isolate));
    assert!(clone.eq(&global, &engine));
    // Each owns a cell of its own.
    assert_eq!(engine.cell(2), engine.cell(3));
    clone.drop(&mut engine);
    assert_eq!(engine.cell(3), StorageCell::Released);
    assert_eq!(global.open(&engine, &isolate), Object { id: 1 });
}

#[test]
fn global_clone_survives_the_first_reference() {
    let mut engine = Engine::new(16);
    let isolate = engine.create_isolate();
    let scope = HandleScope::new(&mut engine, &isolate);
    let local = new_object(&mut engine, &scope);
    let global = Global::new(&mut engine, &isolate, &local);
    let clone = global.clone(&mut engine);
    global.drop(&mut engine);
    assert_eq!(engine.cell(2), StorageCell::Released);
    assert_eq!(clone.open(&engine, &isolate), Object { id: 1 });
}

#[test]
fn global_raw_round_trip() {
    let mut engine = Engine::new(16);
    let isolate = engine.create_isolate();
    let scope = HandleScope::new(&mut engine, &isolate);
    let local = new_object(&mut engine, &scope);
    let global = Global::new(&mut engine, &isolate, &local);
    let before = global.open(&engine, &isolate);
    let raw = global.into_raw();
    assert_eq!(raw, 2);
    // Taking the reference apart releases nothing.
    assert!(engine.is_live(raw));
    let rebuilt: Global<Value> = Global::from_raw(&isolate, raw);
    assert_eq!(rebuilt.open(&engine, &isolate), before);
    let info = rebuilt.get_handle_info(&engine);
    assert_eq!(info.data, 2);
    assert_eq!(info.host, HandleHost::Isolate(1));
    rebuilt.drop(&mut engine);
    assert!(!engine.is_live(raw));
}

#[test]
fn global_handle_info_follows_the_instance() {
    let mut engine = Engine::new(16);
    let isolate = engine.create_isolate();
    let scope = HandleScope::new(&mut engine, &isolate);
    let local = new_object(&mut engine, &scope);
    let global = Global::new(&mut engine, &isolate, &local);
    assert_eq!(global.get_handle_info(&engine).host, HandleHost::Isolate(1));
    assert_eq!(global.borrow(&engine), Object { id: 1 });
    assert_eq!(global.get_unchecked(&engine), Object { id: 1 });
    engine.dispose_isolate(isolate);
    assert_eq!(global.get_handle_info(&engine).host, HandleHost::DisposedIsolate);
}

#[test]
fn global_of_another_instance_is_a_host_mismatch() {
    let mut engine = Engine::new(16);
    let first = engine.create_isolate();
    let second = engine.create_isolate();
    let scope = HandleScope::new(&mut engine, &first);
    let other_scope = HandleScope::new(&mut engine, &second);
    let local = new_object(&mut engine, &scope);
    let global = Global::new(&mut engine, &first, &local);
    let host = global.get_handle_info(&engine).host;
    // Supplying the wrong instance.
    assert_eq!(host.check_match_isolate(&second), Err(HandleError::HostMismatch));
    // Supplying the wrong scope.
    assert_eq!(
        host.check_match_isolate(other_scope.as_isolate()),
        Err(HandleError::HostMismatch)
    );
    assert_eq!(host.check_match_isolate(&first), Ok(()));
    assert_eq!(host.check_match_isolate(scope.as_isolate()), Ok(()));
}

#[test]
fn global_of_a_disposed_instance_is_a_disposed_access() {
    let mut engine = Engine::new(16);
    let first = engine.create_isolate();
    let second = engine.create_isolate();
    let scope = HandleScope::new(&mut engine, &first);
    let local = new_object(&mut engine, &scope);
    let global = Global::new(&mut engine, &first, &local);
    let own = first.thread_safe_handle();
    engine.dispose_isolate(first);
    let host = global.get_handle_info(&engine).host;
    assert_eq!(host, HandleHost::DisposedIsolate);
    assert_eq!(host.check_match_isolate(&second), Err(HandleError::DisposedInstanceAccess));
    assert_eq!(
        host.check_match_host(HandleHost::from_isolate_handle(&engine, &own), None),
        Err(HandleError::DisposedInstanceAccess)
    );
    assert_eq!(
        host.check_match_host(HandleHost::Scope, None),
        Err(HandleError::DisposedInstanceAccess)
    );
}

#[test]
fn dropping_a_global_of_a_disposed_instance_releases_nothing() {
    let mut engine = Engine::new(16);
    let isolate = engine.create_isolate();
    let scope = HandleScope::new(&mut engine, &isolate);
    let local = new_object(&mut engine, &scope);
    let global = Global::new(&mut engine, &isolate, &local);
    engine.dispose_isolate(isolate);
    let before = engine.cell(2);
    global.drop(&mut engine);
    assert_eq!(engine.cell(2), before);
    assert_eq!(before, StorageCell::Persistent { isolate: 1, object: Object { id: 1 } });
}

#[test]
fn globals_of_different_instances_are_not_equal() {
    let mut engine = Engine::new(16);
    let first = engine.create_isolate();
    let second = engine.create_isolate();
    let scope1 = HandleScope::new(&mut engine, &first);
    let scope2 = HandleScope::new(&mut engine, &second);
    let a = new_object(&mut engine, &scope1);
    let b = new_object(&mut engine, &scope2);
    let ga = Global::new(&mut engine, &first, &a);
    let gb = Global::new(&mut engine, &second, &b);
    let ga2 = Global::new(&mut engine, &first, &a);
    assert!(!ga.eq(&gb, &engine));
    assert!(!gb.eq(&ga, &engine));
    assert!(ga.eq(&ga2, &engine));
    assert!(ga.eq(&a, &engine));
    // A transient reference cannot tell its instance: only the objects are
    // compared.
    assert!(!ga.eq(&b, &engine));
}

#[test]
fn global_hash_is_the_hash_of_the_object() {
    let mut engine = Engine::new(16);
    let isolate = engine.create_isolate();
    let scope = HandleScope::new(&mut engine, &isolate);
    let a = new_object(&mut engine, &scope);
    let b = new_object(&mut engine, &scope);
    let ga = Global::new(&mut engine, &isolate, &a);
    let gb = Global::new(&mut engine, &isolate, &b);
    let clone = ga.clone(&mut engine);
    let mut first = DefaultHasher::new();
    ga.hash(&engine, &mut first);
    let mut second = DefaultHasher::new();
    clone.hash(&engine, &mut second);
    let mut third = DefaultHasher::new();
    gb.hash(&engine, &mut third);
    let mut local = DefaultHasher::new();
    a.hash(&engine, &mut local);
    assert_eq!(first.finish(), second.finish());
    assert_eq!(first.finish(), local.finish());
    assert_ne!(first.finish(), third.finish());
}
