use std::collections::hash_map::DefaultHasher;
use std::hash::Hasher;

use gc_handles::Engine;
use gc_handles::Finalizer;
use gc_handles::Global;
use gc_handles::HandleError;
use gc_handles::HandleHost;
use gc_handles::HandleScope;
use gc_handles::Local;
use gc_handles::Object;
use gc_handles::StorageCell;
use gc_handles::Weak;
use gc_handles::WeakCallbackInfo;
use gc_handles::WeakComparison;

struct Value;

fn new_object<'s>(engine: &mut Engine, scope: &'s HandleScope) -> Local<'s, Value> {
    Local::from_raw(engine.allocate(scope)).unwrap()
}

fn hash_of(weak: &Weak<Value>, engine: &Engine) -> u64 {
    let mut hasher = DefaultHasher::new();
    weak.hash(engine, &mut hasher);
    hasher.finish()
}

#[test]
fn empty_weak_is_empty() {
    let mut engine = Engine::new(16);
    let isolate = engine.create_isolate();
    let weak: Weak<Value> = Weak::empty(&isolate);
    assert!(weak.is_empty(&engine));
    assert_eq!(weak.open(&engine, &isolate), None);
    assert!(weak.as_global(&mut engine, &isolate).is_none());
    let scope = HandleScope::new(&mut engine, &isolate);
    assert!(weak.as_local(&mut engine, &scope).is_none());
    // Nothing was registered.
    assert_eq!(engine.cell_count(), 1);
    weak.drop(&mut engine);
    assert_eq!(engine.cell_count(), 1);
}

#[test]
fn bound_weak_opens_to_its_target() {
    let mut engine = Engine::new(16);
    let isolate = engine.create_isolate();
    let scope = HandleScope::new(&mut engine, &isolate);
    let local = new_object(&mut engine, &scope);
    let weak = Weak::new(&mut engine, &isolate, &local);
    assert!(!weak.is_empty(&engine));
    assert_eq!(weak.open(&engine, &isolate), Some(Object { id: 1 }));
    assert_eq!(
        engine.cell(2),
        StorageCell::Weak { isolate: 1, object: Object { id: 1 }, parameter: 0 }
    );
}

#[test]
fn weak_upgrades_to_global_and_local() {
    let mut engine = Engine::new(16);
    let isolate = engine.create_isolate();
    let scope = HandleScope::new(&mut engine, &isolate);
    let local = new_object(&mut engine, &scope);
    let weak = Weak::new(&mut engine, &isolate, &local);
    let global = weak.as_global(&mut engine, &isolate).unwrap();
    assert_eq!(global.open(&engine, &isolate), Object { id: 1 });
    let again = weak.as_local(&mut engine, &scope).unwrap();
    assert_eq!(again.deref(&engine), Object { id: 1 });
    assert_eq!(engine.cell(3), StorageCell::Persistent { isolate: 1, object: Object { id: 1 } });
    assert_eq!(
        engine.cell(4),
        StorageCell::Transient { isolate: 1, object: Object { id: 1 }, scope: 0 }
    );
}

#[test]
fn weak_from_a_global() {
    let mut engine = Engine::new(16);
    let isolate = engine.create_isolate();
    let scope = HandleScope::new(&mut engine, &isolate);
    let local = new_object(&mut engine, &scope);
    let global = Global::new(&mut engine, &isolate, &local);
    let weak = Weak::new(&mut engine, &isolate, &global);
    assert_eq!(weak.open(&engine, &isolate), Some(Object { id: 1 }));
    assert!(weak.eq_handle(&global, &engine));
    assert!(weak.eq_handle(&local, &engine));
}

#[test]
fn weak_does_not_keep_its_target_alive() {
    let mut engine = Engine::new(16);
    let isolate = engine.create_isolate();
    let scope = HandleScope::new(&mut engine, &isolate);
    let weak = {
        let local = new_object(&mut engine, &scope);
        Weak::new(&mut engine, &isolate, &local)
    };
    assert!(engine.is_reachable(Object { id: 1 }));
    assert!(!engine.is_collectable(1, 2));
    scope.exit(&mut engine);
    assert!(!engine.is_reachable(Object { id: 1 }));
    assert!(engine.is_collectable(1, 2));
    engine.collect_garbage(&isolate);
    assert!(weak.is_empty(&engine));
    assert_eq!(weak.open(&engine, &isolate), None);
    assert!(weak.as_global(&mut engine, &isolate).is_none());
    assert_eq!(engine.cell(2), StorageCell::Released);
}

#[test]
fn weak_stays_bound_while_a_global_holds_the_target() {
    let mut engine = Engine::new(16);
    let isolate = engine.create_isolate();
    let scope = HandleScope::new(&mut engine, &isolate);
    let local = new_object(&mut engine, &scope);
    let weak = Weak::with_finalizer(&mut engine, &isolate, &local, Finalizer { token: 5 });
    let global = Global::new(&mut engine, &isolate, &local);
    scope.exit(&mut engine);
    engine.collect_garbage(&isolate);
    assert!(!weak.is_empty(&engine));
    assert_eq!(weak.open(&engine, &isolate), Some(Object { id: 1 }));
    assert!(engine.finalized().is_empty());
    global.drop(&mut engine);
    engine.collect_garbage(&isolate);
    assert!(weak.is_empty(&engine));
    assert_eq!(engine.finalized(), &vec![5]);
}

#[test]
fn finalizer_runs_exactly_once() {
    let mut engine = Engine::new(16);
    let isolate = engine.create_isolate();
    let scope = HandleScope::new(&mut engine, &isolate);
    let weak = {
        let local = new_object(&mut engine, &scope);
        Weak::with_finalizer(&mut engine, &isolate, &local, Finalizer { token: 7 })
    };
    assert!(engine.finalized().is_empty());
    scope.exit(&mut engine);
    assert!(engine.finalized().is_empty());
    engine.collect_garbage(&isolate);
    assert!(weak.is_empty(&engine));
    assert_eq!(engine.finalized(), &vec![7]);
    // Further cycles find nothing to do.
    engine.collect_garbage(&isolate);
    engine.collect_garbage(&isolate);
    assert_eq!(engine.finalized(), &vec![7]);
    weak.drop(&mut engine);
    engine.collect_garbage(&isolate);
    assert_eq!(engine.finalized(), &vec![7]);
}

#[test]
fn dropped_clone_does_not_suppress_the_finalizer() {
    let mut engine = Engine::new(16);
    let isolate = engine.create_isolate();
    let scope = HandleScope::new(&mut engine, &isolate);
    let weak = {
        let local = new_object(&mut engine, &scope);
        Weak::with_finalizer(&mut engine, &isolate, &local, Finalizer { token: 11 })
    };
    let clone = weak.clone(&mut engine);
    assert_eq!(clone.open(&engine, &isolate), weak.open(&engine, &isolate));
    clone.drop(&mut engine);
    assert!(!weak.is_empty(&engine));
    scope.exit(&mut engine);
    engine.collect_garbage(&isolate);
    assert!(weak.is_empty(&engine));
    assert_eq!(engine.finalized(), &vec![11]);
}

#[test]
fn clone_carries_no_finalizer() {
    let mut engine = Engine::new(16);
    let isolate = engine.create_isolate();
    let scope = HandleScope::new(&mut engine, &isolate);
    let weak = {
        let local = new_object(&mut engine, &scope);
        Weak::with_finalizer(&mut engine, &isolate, &local, Finalizer { token: 3 })
    };
    let clone = weak.clone(&mut engine);
    // The first reference is dropped: its finalizer will never run.
    weak.drop(&mut engine);
    scope.exit(&mut engine);
    engine.collect_garbage(&isolate);
    assert!(clone.is_empty(&engine));
    assert!(engine.finalized().is_empty());
}

#[test]
fn clone_with_finalizer_attaches_its_own() {
    let mut engine = Engine::new(16);
    let isolate = engine.create_isolate();
    let scope = HandleScope::new(&mut engine, &isolate);
    let weak = {
        let local = new_object(&mut engine, &scope);
        Weak::with_finalizer(&mut engine, &isolate, &local, Finalizer { token: 1 })
    };
    let clone = weak.clone_with_finalizer(&mut engine, Finalizer { token: 2 });
    assert_eq!(clone.open(&engine, &isolate), Some(Object { id: 1 }));
    scope.exit(&mut engine);
    engine.collect_garbage(&isolate);
    assert!(weak.is_empty(&engine));
    assert!(clone.is_empty(&engine));
    // Both finalizers ran, in the order of the cells.
    assert_eq!(engine.finalized(), &vec![1, 2]);
}

#[test]
fn clone_of_an_empty_weak_is_empty() {
    let mut engine = Engine::new(16);
    let isolate = engine.create_isolate();
    let weak: Weak<Value> = Weak::empty(&isolate);
    let clone = weak.clone(&mut engine);
    assert!(clone.is_empty(&engine));
    let other = weak.clone_with_finalizer(&mut engine, Finalizer { token: 9 });
    assert!(other.is_empty(&engine));
    assert_eq!(engine.cell_count(), 1);
    engine.collect_garbage(&isolate);
    // The finalizer given to the clone of an empty reference is discarded.
    assert!(engine.finalized().is_empty());
    assert!(weak.eq(&clone, &engine));
    assert!(weak.eq(&other, &engine));
}

#[test]
fn dropping_a_bound_weak_releases_its_cell() {
    let mut engine = Engine::new(16);
    let isolate = engine.create_isolate();
    let scope = HandleScope::new(&mut engine, &isolate);
    let local = new_object(&mut engine, &scope);
    let weak = Weak::with_finalizer(&mut engine, &isolate, &local, Finalizer { token: 4 });
    assert!(engine.is_live(2));
    weak.drop(&mut engine);
    assert_eq!(engine.cell(2), StorageCell::Released);
    scope.exit(&mut engine);
    engine.collect_garbage(&isolate);
    assert!(engine.finalized().is_empty());
}

#[test]
fn dropping_a_weak_of_a_disposed_instance_releases_nothing() {
    let mut engine = Engine::new(16);
    let isolate = engine.create_isolate();
    let scope = HandleScope::new(&mut engine, &isolate);
    let local = new_object(&mut engine, &scope);
    let weak = Weak::new(&mut engine, &isolate, &local);
    engine.dispose_isolate(isolate);
    let before = engine.cell(2);
    weak.drop(&mut engine);
    assert_eq!(engine.cell(2), before);
}

#[test]
fn first_pass_unbinds_and_second_pass_finalizes() {
    let mut engine = Engine::new(16);
    let isolate = engine.create_isolate();
    let scope = HandleScope::new(&mut engine, &isolate);
    let weak = {
        let local = new_object(&mut engine, &scope);
        Weak::with_finalizer(&mut engine, &isolate, &local, Finalizer { token: 21 })
    };
    scope.exit(&mut engine);
    let mut wci = WeakCallbackInfo::first_pass(0);
    assert_eq!(wci.get_parameter(), 0);
    assert!(!wci.second_pass_requested());
    Weak::<Value>::first_pass_callback(&mut engine, &mut wci);
    assert!(wci.second_pass_requested());
    assert!(weak.is_empty(&engine));
    assert_eq!(engine.cell(2), StorageCell::Released);
    // The finalizer is still pending.
    assert!(engine.finalized().is_empty());
    let wci = WeakCallbackInfo::second_pass(0);
    Weak::<Value>::second_pass_callback(&mut engine, &wci);
    assert_eq!(engine.finalized(), &vec![21]);
    // It has been taken: running the callback again does nothing.
    Weak::<Value>::second_pass_callback(&mut engine, &wci);
    assert_eq!(engine.finalized(), &vec![21]);
}

#[test]
fn first_pass_without_finalizer_asks_for_no_second_pass() {
    let mut engine = Engine::new(16);
    let isolate = engine.create_isolate();
    let scope = HandleScope::new(&mut engine, &isolate);
    let weak = {
        let local = new_object(&mut engine, &scope);
        Weak::new(&mut engine, &isolate, &local)
    };
    scope.exit(&mut engine);
    let mut wci = WeakCallbackInfo::first_pass(0);
    Weak::<Value>::first_pass_callback(&mut engine, &mut wci);
    assert!(!wci.second_pass_requested());
    assert!(weak.is_empty(&engine));
}

#[test]
fn weak_dropped_between_the_phases_is_not_finalized() {
    let mut engine = Engine::new(16);
    let isolate = engine.create_isolate();
    let scope = HandleScope::new(&mut engine, &isolate);
    let weak = {
        let local = new_object(&mut engine, &scope);
        Weak::with_finalizer(&mut engine, &isolate, &local, Finalizer { token: 8 })
    };
    scope.exit(&mut engine);
    engine.collect_first_pass(&isolate);
    assert!(weak.is_empty(&engine));
    weak.drop(&mut engine);
    engine.collect_second_pass();
    assert!(engine.finalized().is_empty());
}

#[test]
fn disposed_instance_gets_no_second_pass() {
    let mut engine = Engine::new(16);
    let isolate = engine.create_isolate();
    let twin = engine.create_isolate();
    let scope = HandleScope::new(&mut engine, &isolate);
    let weak = {
        let local = new_object(&mut engine, &scope);
        Weak::with_finalizer(&mut engine, &isolate, &local, Finalizer { token: 8 })
    };
    scope.exit(&mut engine);
    engine.collect_first_pass(&isolate);
    assert!(weak.is_empty(&engine));
    engine.dispose_isolate(isolate);
    engine.collect_second_pass();
    engine.collect_garbage(&twin);
    assert!(engine.finalized().is_empty());
}

#[test]
fn weaks_to_one_object_are_equal() {
    let mut engine = Engine::new(16);
    let isolate = engine.create_isolate();
    let scope = HandleScope::new(&mut engine, &isolate);
    let local = new_object(&mut engine, &scope);
    let other = new_object(&mut engine, &scope);
    let a = Weak::new(&mut engine, &isolate, &local);
    let b = Weak::new(&mut engine, &isolate, &local);
    let c = Weak::new(&mut engine, &isolate, &other);
    assert!(a.eq(&b, &engine));
    assert!(b.eq(&a, &engine));
    assert!(a.eq(&a, &engine));
    assert!(!a.eq(&c, &engine));
    assert!(!c.eq(&a, &engine));
}

#[test]
fn collected_weaks_become_equal() {
    let mut engine = Engine::new(16);
    let isolate = engine.create_isolate();
    let scope = HandleScope::new(&mut engine, &isolate);
    let (a, c) = {
        let local = new_object(&mut engine, &scope);
        let other = new_object(&mut engine, &scope);
        (Weak::new(&mut engine, &isolate, &local), Weak::new(&mut engine, &isolate, &other))
    };
    let empty: Weak<Value> = Weak::empty(&isolate);
    assert!(!a.eq(&c, &engine));
    assert!(!a.eq(&empty, &engine));
    assert!(!empty.eq(&a, &engine));
    let before = hash_of(&a, &engine);
    scope.exit(&mut engine);
    engine.collect_garbage(&isolate);
    assert!(a.is_empty(&engine));
    assert!(c.is_empty(&engine));
    assert!(a.eq(&c, &engine));
    assert!(a.eq(&empty, &engine));
    // The hash has changed with the collection.
    assert_ne!(hash_of(&a, &engine), before);
    assert_eq!(hash_of(&a, &engine), hash_of(&empty, &engine));
    assert_eq!(hash_of(&a, &engine), DefaultHasher::new().finish());
}

#[test]
fn empty_weaks_of_different_instances_are_not_equal() {
    let mut engine = Engine::new(16);
    let first = engine.create_isolate();
    let second = engine.create_isolate();
    let a: Weak<Value> = Weak::empty(&first);
    let b: Weak<Value> = Weak::empty(&second);
    let a2: Weak<Value> = Weak::empty(&first);
    assert!(!a.eq(&b, &engine));
    assert!(a.eq(&a2, &engine));
}

#[test]
fn weak_is_never_equal_to_a_handle_once_empty() {
    let mut engine = Engine::new(16);
    let isolate = engine.create_isolate();
    let scope = HandleScope::new(&mut engine, &isolate);
    let local = new_object(&mut engine, &scope);
    let other = new_object(&mut engine, &scope);
    let weak = Weak::new(&mut engine, &isolate, &local);
    let empty: Weak<Value> = Weak::empty(&isolate);
    assert!(weak.eq_handle(&local, &engine));
    assert!(!weak.eq_handle(&other, &engine));
    assert!(!empty.eq_handle(&local, &engine));
}

#[test]
fn weak_hash_is_the_hash_of_the_target() {
    let mut engine = Engine::new(16);
    let isolate = engine.create_isolate();
    let scope = HandleScope::new(&mut engine, &isolate);
    let local = new_object(&mut engine, &scope);
    let weak = Weak::new(&mut engine, &isolate, &local);
    let mut expected = DefaultHasher::new();
    local.hash(&engine, &mut expected);
    assert_eq!(hash_of(&weak, &engine), expected.finish());
}

#[test]
fn weak_of_another_instance_is_a_host_mismatch() {
    let mut engine = Engine::new(16);
    let first = engine.create_isolate();
    let second = engine.create_isolate();
    let weak: Weak<Value> = Weak::empty(&first);
    // What `open`, `as_global` and `as_local` check before they read a bound
    // reference.
    let host = HandleHost::from_isolate_handle(&engine, &first.thread_safe_handle());
    assert_eq!(host.check_match_isolate(&second), Err(HandleError::HostMismatch));
    assert_eq!(host.check_match_isolate(&first), Ok(()));
    // An empty reference is read without a check.
    assert_eq!(weak.open(&engine, &second), None);
}

#[test]
fn collection_of_one_instance_spares_the_other() {
    let mut engine = Engine::new(16);
    let first = engine.create_isolate();
    let second = engine.create_isolate();
    let scope1 = HandleScope::new(&mut engine, &first);
    let scope2 = HandleScope::new(&mut engine, &second);
    let (a, b) = {
        let x = new_object(&mut engine, &scope1);
        let y = new_object(&mut engine, &scope2);
        (
            Weak::with_finalizer(&mut engine, &first, &x, Finalizer { token: 1 }),
            Weak::with_finalizer(&mut engine, &second, &y, Finalizer { token: 2 }),
        )
    };
    scope1.exit(&mut engine);
    scope2.exit(&mut engine);
    engine.collect_garbage(&second);
    assert!(!a.is_empty(&engine));
    assert!(b.is_empty(&engine));
    assert_eq!(engine.finalized(), &vec![2]);
    engine.collect_garbage(&first);
    assert!(a.is_empty(&engine));
    assert_eq!(engine.finalized(), &vec![2, 1]);
}

#[test]
fn bound_weak_on_a_full_engine_yields_no_local() {
    let mut engine = Engine::new(2);
    let isolate = engine.create_isolate();
    let scope = HandleScope::new(&mut engine, &isolate);
    let local = new_object(&mut engine, &scope);
    let weak = Weak::new(&mut engine, &isolate, &local);
    assert!(!engine.has_room());
    // The engine mints nothing: the reference is absent, and neither the
    // engine nor the weak reference has changed.
    assert!(weak.as_local(&mut engine, &scope).is_none());
    assert_eq!(engine.cell_count(), 3);
    assert!(!weak.is_empty(&engine));
    assert_eq!(weak.open(&engine, &isolate), Some(Object { id: 1 }));
}

#[test]
fn bound_weak_on_a_full_engine_yields_no_global() {
    let mut engine = Engine::new(2);
    let isolate = engine.create_isolate();
    let scope = HandleScope::new(&mut engine, &isolate);
    let local = new_object(&mut engine, &scope);
    let weak = Weak::new(&mut engine, &isolate, &local);
    assert!(weak.as_global(&mut engine, &isolate).is_none());
    assert_eq!(engine.cell_count(), 3);
    assert!(!weak.is_empty(&engine));
    assert_eq!(weak.open(&engine, &isolate), Some(Object { id: 1 }));
}

#[test]
fn comparison_of_matching_hosts_goes_by_the_slots() {
    let a = HandleHost::Isolate(1);
    assert_eq!(gc_handles::weak::compare(a, Some(4), a, Some(9)), WeakComparison::Targets(4, 9));
    assert_eq!(gc_handles::weak::compare(a, None, a, None), WeakComparison::Equal);
    assert_eq!(gc_handles::weak::compare(a, Some(4), a, None), WeakComparison::Unequal);
    assert_eq!(gc_handles::weak::compare(a, None, a, Some(9)), WeakComparison::Unequal);
    // A transient handle cannot tell its instance: the hosts are taken to
    // match.
    assert_eq!(
        gc_handles::weak::compare(a, Some(4), HandleHost::Scope, Some(9)),
        WeakComparison::Targets(4, 9)
    );
}

#[test]
fn comparison_of_different_hosts_is_unequal() {
    let a = HandleHost::Isolate(1);
    let b = HandleHost::Isolate(2);
    assert_eq!(gc_handles::weak::compare(a, Some(4), b, Some(4)), WeakComparison::Unequal);
    assert_eq!(gc_handles::weak::compare(a, None, b, None), WeakComparison::Unequal);
    assert_eq!(gc_handles::weak::compare(b, Some(4), a, None), WeakComparison::Unequal);
}
