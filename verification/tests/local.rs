use std::collections::hash_map::DefaultHasher;
use std::hash::Hasher;

use gc_handles::Engine;
use gc_handles::Global;
use gc_handles::Handle;
use gc_handles::HandleHost;
use gc_handles::HandleInfo;
use gc_handles::HandleScope;
use gc_handles::Local;
use gc_handles::Object;
use gc_handles::StorageCell;

struct Value;

struct Name;

fn new_object<'s>(engine: &mut Engine, scope: &'s HandleScope) -> Local<'s, Value> {
    Local::from_raw(engine.allocate(scope)).unwrap()
}

#[test]
fn local_new_reads_the_object_of_its_source() {
    let mut engine = Engine::new(16);
    let isolate = engine.create_isolate();
    let scope = HandleScope::new(&mut engine, &isolate);
    let source = new_object(&mut engine, &scope);
    let local = Local::new(&mut engine, &scope, &source);
    assert_eq!(local.deref(&engine), source.deref(&engine));
    assert_eq!(local.deref(&engine), Object { id: 1 });
    // The new reference has a cell of its own.
    assert_eq!(source.as_non_null(), 1);
    assert_eq!(local.as_non_null(), 2);
    assert_eq!(
        engine.cell(2),
        StorageCell::Transient { isolate: 1, object: Object { id: 1 }, scope: 0 }
    );
}

#[test]
fn local_new_in_an_inner_scope() {
    let mut engine = Engine::new(16);
    let isolate = engine.create_isolate();
    let outer = HandleScope::new(&mut engine, &isolate);
    let source = new_object(&mut engine, &outer);
    let inner = HandleScope::new(&mut engine, &isolate);
    let local = Local::new(&mut engine, &inner, &source);
    assert_eq!(local.deref(&engine), Object { id: 1 });
    let address = local.as_non_null();
    inner.exit(&mut engine);
    assert!(!engine.is_live(address));
    assert!(engine.is_live(source.as_non_null()));
    assert_eq!(source.deref(&engine), Object { id: 1 });
}

#[test]
fn local_new_from_a_global() {
    let mut engine = Engine::new(16);
    let isolate = engine.create_isolate();
    let scope = HandleScope::new(&mut engine, &isolate);
    let source = new_object(&mut engine, &scope);
    let global = Global::new(&mut engine, &isolate, &source);
    let local = Local::new(&mut engine, &scope, &global);
    assert_eq!(local.deref(&engine), Object { id: 1 });
    assert_eq!(local.as_non_null(), 3);
}

#[test]
fn local_from_raw_rejects_null() {
    assert!(Local::<Value>::from_raw(0).is_none());
    let local = Local::<Value>::from_raw(5).unwrap();
    assert_eq!(local.as_non_null(), 5);
    assert_eq!(Local::<Value>::from_non_null(9).as_non_null(), 9);
}

#[test]
fn local_is_copied_bit_by_bit() {
    let mut engine = Engine::new(16);
    let isolate = engine.create_isolate();
    let scope = HandleScope::new(&mut engine, &isolate);
    let local = new_object(&mut engine, &scope);
    let copy = local;
    let clone = local.clone();
    assert_eq!(copy.as_non_null(), local.as_non_null());
    assert_eq!(clone.as_non_null(), local.as_non_null());
    // Copying registers nothing with the engine.
    assert_eq!(engine.cell_count(), 2);
}

#[test]
fn local_cast_keeps_the_cell() {
    let mut engine = Engine::new(16);
    let isolate = engine.create_isolate();
    let scope = HandleScope::new(&mut engine, &isolate);
    let value = new_object(&mut engine, &scope);
    let name: Local<Name> = Local::cast(value);
    assert_eq!(name.as_non_null(), value.as_non_null());
    assert_eq!(name.deref(&engine), value.deref(&engine));
}

#[test]
fn slice_into_raw_lists_the_addresses() {
    let mut engine = Engine::new(16);
    let isolate = engine.create_isolate();
    let scope = HandleScope::new(&mut engine, &isolate);
    let a = new_object(&mut engine, &scope);
    let b = new_object(&mut engine, &scope);
    let c = Local::new(&mut engine, &scope, &a);
    assert_eq!(Local::slice_into_raw(&[a, b, c]), vec![1, 2, 3]);
    assert_eq!(Local::slice_into_raw(&[c, a]), vec![3, 1]);
    let none: [Local<Value>; 0] = [];
    assert_eq!(Local::slice_into_raw(&none), Vec::<usize>::new());
}

#[test]
fn local_handle_info_names_no_instance() {
    let mut engine = Engine::new(16);
    let isolate = engine.create_isolate();
    let scope = HandleScope::new(&mut engine, &isolate);
    let local = new_object(&mut engine, &scope);
    let info = local.get_handle_info(&engine);
    assert_eq!(info.data, 1);
    assert_eq!(info.host, HandleHost::Scope);
    let copy = info.clone();
    assert_eq!(copy.data, 1);
    let built: HandleInfo<Value> = HandleInfo::new(4, HandleHost::Isolate(2));
    assert_eq!(built.data, 4);
    assert_eq!(built.host, HandleHost::Isolate(2));
}

#[test]
fn local_open_and_borrow_read_the_object() {
    let mut engine = Engine::new(16);
    let isolate = engine.create_isolate();
    let scope = HandleScope::new(&mut engine, &isolate);
    let local = new_object(&mut engine, &scope);
    assert_eq!(local.open(&engine, &isolate), Object { id: 1 });
    assert_eq!(local.get_unchecked(&engine), Object { id: 1 });
    assert_eq!(local.borrow(&engine), Object { id: 1 });
}

#[test]
fn locals_are_equal_when_they_refer_to_one_object() {
    let mut engine = Engine::new(16);
    let isolate = engine.create_isolate();
    let scope = HandleScope::new(&mut engine, &isolate);
    let a = new_object(&mut engine, &scope);
    let b = new_object(&mut engine, &scope);
    let a2 = Local::new(&mut engine, &scope, &a);
    assert!(a.eq(&a2, &engine));
    assert!(a2.eq(&a, &engine));
    assert!(a.eq(&a, &engine));
    assert!(!a.eq(&b, &engine));
    let global = Global::new(&mut engine, &isolate, &a);
    assert!(a.eq(&global, &engine));
    assert!(!b.eq(&global, &engine));
}

#[test]
fn local_hash_is_the_hash_of_the_object() {
    let mut engine = Engine::new(16);
    let isolate = engine.create_isolate();
    let scope = HandleScope::new(&mut engine, &isolate);
    let a = new_object(&mut engine, &scope);
    let b = new_object(&mut engine, &scope);
    let a2 = Local::new(&mut engine, &scope, &a);
    let mut first = DefaultHasher::new();
    a.hash(&engine, &mut first);
    let mut second = DefaultHasher::new();
    a2.hash(&engine, &mut second);
    let mut third = DefaultHasher::new();
    b.hash(&engine, &mut third);
    let mut expected = DefaultHasher::new();
    expected.write(&1u64.to_le_bytes());
    assert_eq!(first.finish(), second.finish());
    assert_eq!(first.finish(), expected.finish());
    assert_ne!(first.finish(), third.finish());
}

#[test]
fn cast_local_mints_while_there_is_room() {
    let mut engine = Engine::new(2);
    let isolate = engine.create_isolate();
    let scope = HandleScope::new(&mut engine, &isolate);
    let source = new_object(&mut engine, &scope);
    let minted: Option<Local<Value>> = scope.cast_local(&mut engine, source.as_non_null());
    let minted = minted.unwrap();
    assert_eq!(minted.as_non_null(), 2);
    assert_eq!(minted.deref(&engine), Object { id: 1 });
    // The engine is exhausted now: a further reference is absent, and
    // nothing has changed.
    let absent: Option<Local<Value>> = scope.cast_local(&mut engine, source.as_non_null());
    assert!(absent.is_none());
    assert_eq!(engine.cell_count(), 3);
    assert_eq!(source.deref(&engine), Object { id: 1 });
}
