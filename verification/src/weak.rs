//! Weak references, and the two callbacks through which the engine tells the
//! host that the target of one has been collected.
//!
//! A bound weak reference owns a pinned side record. The record holds the
//! address of the weak storage cell and, optionally, a finalizer. The engine
//! knows the record by its address alone. When the target becomes unreachable,
//! the engine runs the first-phase callback, which unbinds the reference, and
//! later, if there is a finalizer, the second-phase callback, which runs it.
use std::collections::hash_map::DefaultHasher;
use core::marker::PhantomData;
use vstd::prelude::*;
use crate::engine::Engine;
use crate::engine::HandleScope;
use crate::engine::Isolate;
use crate::engine::IsolateHandle;
use crate::handle::Global;
use crate::handle::Handle;
use crate::handle::Local;
use crate::host::HandleError;
use crate::host::HandleHost;
use crate::record::Finalizer;
use crate::state::EngineState;
use crate::state::Object;

verus! {

/// What the engine hands to a weak callback: the address of the side record,
/// and, during the first phase, the means to ask for the second.
#[derive(Debug)]
pub struct WeakCallbackInfo {
    parameter: usize,
    first_pass: bool,
    second_pass_callback: bool,
}

impl WeakCallbackInfo {
    /// The address of the side record.
    pub closed spec fn parameter(&self) -> usize {
        self.parameter
    }

    /// Whether this is the first phase.
    pub closed spec fn is_first_pass(&self) -> bool {
        self.first_pass
    }

    /// Whether the second-phase callback has been asked for.
    pub closed spec fn wants_second_pass(&self) -> bool {
        self.second_pass_callback
    }

    /// What the engine hands to the first-phase callback.
    pub fn first_pass(parameter: usize) -> (wci: WeakCallbackInfo)
        ensures
            wci.parameter() == parameter,
            wci.is_first_pass(),
            !wci.wants_second_pass(),
    {
        WeakCallbackInfo { parameter, first_pass: true, second_pass_callback: false }
    }

    /// What the engine hands to the second-phase callback.
    pub fn second_pass(parameter: usize) -> (wci: WeakCallbackInfo)
        ensures
            wci.parameter() == parameter,
            !wci.is_first_pass(),
            !wci.wants_second_pass(),
    {
        WeakCallbackInfo { parameter, first_pass: false, second_pass_callback: false }
    }

    /// The address of the side record.
    pub fn get_parameter(&self) -> (parameter: usize)
        ensures
            parameter == self.parameter(),
    {
        self.parameter
    }

    /// Asks the engine to run the second-phase callback later. This can be
    /// done during the first phase only.
    pub fn set_second_pass_callback(&mut self)
        requires
            old(self).is_first_pass(),
        ensures
            final(self).parameter() == old(self).parameter(),
            final(self).is_first_pass(),
            final(self).wants_second_pass(),
    {
        self.second_pass_callback = true;
    }

    /// Whether the second-phase callback has been asked for.
    pub fn second_pass_requested(&self) -> (requested: bool)
        ensures
            requested == self.wants_second_pass(),
    {
        self.second_pass_callback
    }
}

/// How two weak references compare, as far as their hosts and their address
/// slots tell.
#[derive(Clone, Copy, Debug, PartialEq, Eq, Structural)]
pub enum WeakComparison {
    /// They are not equal: their hosts do not match, or one is bound and the
    /// other empty.
    Unequal,
    /// They are equal: their hosts match and both are empty.
    Equal,
    /// Their hosts match and both are bound: they are equal if the objects
    /// that the cells at these two addresses refer to are equal.
    Targets(usize, usize),
}

/// What the comparison of two weak references comes to, given the host and the
/// address slot of each. Neither host may be disposed. To compare a weak
/// reference with a handle of another kind, give that handle's address as a
/// slot that is set.
pub open spec fn comparison(
    self_host: HandleHost,
    self_pointer: Option<usize>,
    other_host: HandleHost,
    other_pointer: Option<usize>,
) -> WeakComparison {
    if !self_host.matches(other_host, None) {
        WeakComparison::Unequal
    } else {
        match (self_pointer, other_pointer) {
            (Some(a), Some(b)) => WeakComparison::Targets(a, b),
            (None, None) => WeakComparison::Equal,
            _ => WeakComparison::Unequal,
        }
    }
}

/// Compares two weak references by their hosts and their address slots.
pub fn compare(
    self_host: HandleHost,
    self_pointer: Option<usize>,
    other_host: HandleHost,
    other_pointer: Option<usize>,
) -> (c: WeakComparison)
    requires
        self_host.usage_error(other_host, None) != Some(HandleError::DisposedInstanceAccess),
    ensures
        c == comparison(self_host, self_pointer, other_host, other_pointer),
{
    if !self_host.match_host(other_host, None) {
        return WeakComparison::Unequal;
    }
    match (self_pointer, other_pointer) {
        (Some(self_data), Some(other_data)) => WeakComparison::Targets(self_data, other_data),
        (None, None) => WeakComparison::Equal,
        _ => WeakComparison::Unequal,
    }
}

/// A reference that does not keep its target alive. It is bound until the
/// engine collects the target, and empty afterwards; it may also be created
/// empty. A finalizer installed with it runs after the target has been
/// collected, unless the reference is dropped first.
///
/// What `eq` and `hash` say of a weak reference changes when its target is
/// collected, so a weak reference is no key for a hash table.
#[derive(Debug)]
pub struct Weak<T> {
    data: Option<usize>,
    isolate_handle: IsolateHandle,
    marker: PhantomData<T>,
}

impl<T> Weak<T> {
    /// The address of the side record, if the reference was created bound.
    pub closed spec fn record(&self) -> Option<usize> {
        self.data
    }

    /// The address of the instance the reference was created for.
    pub closed spec fn instance(&self) -> usize {
        self.isolate_handle@
    }

    /// The side record of the reference is one of state `s`, and the cell it
    /// names, if any, is one of the instance of the reference.
    pub open spec fn wf(&self, s: EngineState) -> bool {
        self.record() matches Some(parameter) ==> {
            &&& parameter < s.records.len()
            &&& (s.records[parameter as int].pointer matches Some(address) ==> s.cells[address as int].isolate()
                == self.instance())
        }
    }

    /// The address of the weak cell in state `s`, while the reference is
    /// bound.
    pub open spec fn pointer(&self, s: EngineState) -> Option<usize> {
        match self.record() {
            Some(parameter) => s.records[parameter as int].pointer,
            None => None,
        }
    }

    /// The host of the reference in state `s`.
    pub open spec fn host(&self, s: EngineState) -> HandleHost {
        HandleHost::of_handle(s, self.instance())
    }

    /// What `open` returns in state `s`: the target, while the reference is
    /// bound.
    pub open spec fn opened(&self, s: EngineState) -> Option<Object> {
        match self.pointer(s) {
            Some(address) => Some(s.object_at(address)),
            None => None,
        }
    }

    /// The state after the reference has been dropped in state `s`: its cell,
    /// if it is bound and its instance alive, is released, and its side
    /// record is given up.
    pub open spec fn dropped(&self, s: EngineState) -> EngineState {
        match self.record() {
            Some(parameter) => match s.records[parameter as int].pointer {
                Some(address) if s.is_alive(self.instance()) => s.release(address).unpin(
                    parameter,
                ),
                _ => s.unpin(parameter),
            },
            None => s,
        }
    }

    /// Registers a weak reference of the instance at `isolate` to the object
    /// that `handle` refers to, without a finalizer.
    pub fn new<H: Handle<Data = T>>(engine: &mut Engine, isolate: &Isolate, handle: &H) -> (weak:
        Self)
        requires
            old(engine)@.wf(),
            handle.info(old(engine)@).hosted_by(old(engine)@, isolate@),
            old(engine)@.has_room(),
        ensures
            weak.record() == Some(old(engine)@.records.len() as usize),
            weak.instance() == isolate@,
            final(engine)@ == old(engine)@.register_weak(
                isolate@,
                handle.info(old(engine)@).data,
                None,
            ),
            final(engine)@.wf(),
            weak.wf(final(engine)@),
    {
        let info = handle.get_handle_info(engine);
        info.host.assert_match_isolate(isolate);
        Weak::new_raw(engine, isolate.address(), info.data, None)
    }

    /// Registers a weak reference of the instance at `isolate` to the object
    /// that `handle` refers to, with a finalizer.
    ///
    /// The finalizer runs after the target has been collected, if the
    /// reference has not been dropped by then and the instance is still
    /// alive. It cannot reach the target, which is gone when it runs.
    pub fn with_finalizer<H: Handle<Data = T>>(
        engine: &mut Engine,
        isolate: &Isolate,
        handle: &H,
        finalizer: Finalizer,
    ) -> (weak: Self)
        requires
            old(engine)@.wf(),
            handle.info(old(engine)@).hosted_by(old(engine)@, isolate@),
            old(engine)@.has_room(),
        ensures
            weak.record() == Some(old(engine)@.records.len() as usize),
            weak.instance() == isolate@,
            final(engine)@ == old(engine)@.register_weak(
                isolate@,
                handle.info(old(engine)@).data,
                Some(finalizer),
            ),
            final(engine)@.wf(),
            weak.wf(final(engine)@),
    {
        let info = handle.get_handle_info(engine);
        info.host.assert_match_isolate(isolate);
        Weak::new_raw(engine, isolate.address(), info.data, Some(finalizer))
    }

    /// Pins a side record that holds `finalizer`, registers a weak cell of
    /// the instance at `isolate` for the object that the cell at `data` refers
    /// to, with the record as the parameter of its callbacks, and stores the
    /// address of the cell in the record.
    pub(crate) fn new_raw(
        engine: &mut Engine,
        isolate: usize,
        data: usize,
        finalizer: Option<Finalizer>,
    ) -> (weak: Self)
        requires
            old(engine)@.wf(),
            old(engine)@.holds(isolate, data),
            old(engine)@.has_room(),
        ensures
            weak.record() == Some(old(engine)@.records.len() as usize),
            weak.instance() == isolate,
            final(engine)@ == old(engine)@.register_weak(isolate, data, finalizer),
            final(engine)@.wf(),
            weak.wf(final(engine)@),
    {
        let ghost source = data;
        let weak_data = engine.pin_record(finalizer);
        let data = engine.global_new_weak(isolate, data, weak_data);
        engine.bind_record(weak_data, data);
        proof {
            old(engine)@.lemma_register_weak(isolate, source, finalizer);
        }
        Weak {
            data: Some(weak_data),
            isolate_handle: IsolateHandle::from_address(isolate),
            marker: PhantomData,
        }
    }

    /// An empty weak reference of the instance at `isolate`.
    pub fn empty(isolate: &Isolate) -> (weak: Self)
        ensures
            weak.record() is None,
            weak.instance() == isolate@,
    {
        Weak { data: None, isolate_handle: isolate.thread_safe_handle(), marker: PhantomData }
    }

    /// A second weak reference to the same target, with a finalizer of its
    /// own. If this reference is empty, so is the new one, and the finalizer
    /// is discarded.
    pub fn clone_with_finalizer(&self, engine: &mut Engine, finalizer: Finalizer) -> (weak: Self)
        requires
            old(engine)@.wf(),
            self.wf(old(engine)@),
            self.pointer(old(engine)@) is Some ==> self.host(old(engine)@).access_error() is None
                && old(engine)@.has_room(),
        ensures
            weak.instance() == self.instance(),
            match self.pointer(old(engine)@) {
                Some(address) => {
                    &&& weak.record() == Some(old(engine)@.records.len() as usize)
                    &&& final(engine)@ == old(engine)@.register_weak(
                        self.instance(),
                        address,
                        Some(finalizer),
                    )
                },
                None => weak.record() is None && final(engine)@ == old(engine)@,
            },
            final(engine)@.wf(),
            weak.wf(final(engine)@),
            self.wf(final(engine)@),
    {
        self.clone_raw(engine, Some(finalizer))
    }

    /// A second weak reference to the same target, registered anew with the
    /// given finalizer, or an empty one if this reference is empty.
    pub(crate) fn clone_raw(&self, engine: &mut Engine, finalizer: Option<Finalizer>) -> (weak:
        Self)
        requires
            old(engine)@.wf(),
            self.wf(old(engine)@),
            self.pointer(old(engine)@) is Some ==> self.host(old(engine)@).access_error() is None
                && old(engine)@.has_room(),
        ensures
            weak.instance() == self.instance(),
            match self.pointer(old(engine)@) {
                Some(address) => {
                    &&& weak.record() == Some(old(engine)@.records.len() as usize)
                    &&& final(engine)@ == old(engine)@.register_weak(
                        self.instance(),
                        address,
                        finalizer,
                    )
                },
                None => weak.record() is None && final(engine)@ == old(engine)@,
            },
            final(engine)@.wf(),
            weak.wf(final(engine)@),
            self.wf(final(engine)@),
    {
        if let Some(data) = self.get_pointer(engine) {
            Weak::new_raw(engine, self.isolate_handle.get_isolate_ptr(engine), data, finalizer)
        } else {
            Weak { data: None, isolate_handle: self.isolate_handle.clone(), marker: PhantomData }
        }
    }

    /// A second weak reference to the same target, without a finalizer,
    /// whether or not this one has one: a finalizer belongs to one
    /// registration.
    pub fn clone(&self, engine: &mut Engine) -> (weak: Self)
        requires
            old(engine)@.wf(),
            self.wf(old(engine)@),
            self.pointer(old(engine)@) is Some ==> self.host(old(engine)@).access_error() is None
                && old(engine)@.has_room(),
        ensures
            weak.instance() == self.instance(),
            match self.pointer(old(engine)@) {
                Some(address) => {
                    &&& weak.record() == Some(old(engine)@.records.len() as usize)
                    &&& final(engine)@ == old(engine)@.register_weak(
                        self.instance(),
                        address,
                        None,
                    )
                },
                None => weak.record() is None && final(engine)@ == old(engine)@,
            },
            final(engine)@.wf(),
            weak.wf(final(engine)@),
            self.wf(final(engine)@),
    {
        self.clone_raw(engine, None)
    }

    /// The address of the weak cell, while the reference is bound.
    pub fn get_pointer(&self, engine: &Engine) -> (pointer: Option<usize>)
        requires
            self.wf(engine@),
        ensures
            pointer == self.pointer(engine@),
    {
        match self.data {
            Some(data) => engine.pointer(data),
            None => None,
        }
    }

    /// Whether the reference is empty: it was created empty, or its target
    /// has been collected.
    pub fn is_empty(&self, engine: &Engine) -> (empty: bool)
        requires
            self.wf(engine@),
        ensures
            empty == self.pointer(engine@) is None,
    {
        self.get_pointer(engine).is_none()
    }

    /// Reads the target, for use with the instance at `isolate`, or nothing
    /// if the reference is empty. A bound reference must be hosted by that
    /// instance.
    pub fn open(&self, engine: &Engine, isolate: &Isolate) -> (object: Option<Object>)
        requires
            engine@.wf(),
            self.wf(engine@),
            self.pointer(engine@) is Some ==> self.host(engine@).isolate_error(isolate@) is None,
        ensures
            object == self.opened(engine@),
    {
        if let Some(data) = self.get_pointer(engine) {
            let handle_host = HandleHost::from_isolate_handle(engine, &self.isolate_handle);
            handle_host.assert_match_isolate(isolate);
            Some(engine.object_at(data))
        } else {
            None
        }
    }

    /// Registers a persistent reference to the target with the instance at
    /// `isolate`. Returns nothing if the reference is empty, or if the engine
    /// has no room for another cell; the engine is then as before. A bound
    /// reference must be hosted by that instance.
    pub fn as_global(&self, engine: &mut Engine, isolate: &Isolate) -> (global: Option<Global<T>>)
        requires
            old(engine)@.wf(),
            self.wf(old(engine)@),
            self.pointer(old(engine)@) is Some ==> self.host(old(engine)@).isolate_error(isolate@)
                is None,
        ensures
            match self.pointer(old(engine)@) {
                Some(address) if old(engine)@.has_room() => {
                    &&& global matches Some(g)
                    &&& g.address() == old(engine)@.cells.len()
                    &&& g.instance() == isolate@
                    &&& g.wf(final(engine)@)
                    &&& final(engine)@ == old(engine)@.register(isolate@, address)
                },
                _ => global is None && final(engine)@ == old(engine)@,
            },
            final(engine)@.wf(),
            self.wf(final(engine)@),
    {
        if let Some(data) = self.get_pointer(engine) {
            let handle_host = HandleHost::from_isolate_handle(engine, &self.isolate_handle);
            handle_host.assert_match_isolate(isolate);
            Global::try_new_raw(engine, isolate.address(), data)
        } else {
            None
        }
    }

    /// Mints a transient reference to the target in `scope`. Returns nothing
    /// if the reference is empty, or if the engine has no room for another
    /// cell; the engine is then as before. A bound reference must be hosted
    /// by the instance of the scope.
    pub fn as_local<'s>(&self, engine: &mut Engine, scope: &'s HandleScope) -> (local: Option<
        Local<'s, T>,
    >)
        requires
            old(engine)@.wf(),
            self.wf(old(engine)@),
            self.pointer(old(engine)@) is Some ==> {
                &&& self.host(old(engine)@).isolate_error(scope.isolate()) is None
                &&& old(engine)@.scope_live(scope.isolate(), scope.index())
            },
        ensures
            match self.pointer(old(engine)@) {
                Some(address) if old(engine)@.has_room() => {
                    &&& local matches Some(l)
                    &&& l.address() == old(engine)@.cells.len()
                    &&& l.wf(final(engine)@)
                    &&& final(engine)@ == old(engine)@.mint(scope.isolate(), scope.index(), address)
                },
                _ => local is None && final(engine)@ == old(engine)@,
            },
            final(engine)@.wf(),
            self.wf(final(engine)@),
    {
        if let Some(data) = self.get_pointer(engine) {
            let handle_host = HandleHost::from_isolate_handle(engine, &self.isolate_handle);
            handle_host.assert_match_isolate(scope.as_isolate());
            scope.cast_local(engine, data)
        } else {
            None
        }
    }

    /// The first-phase callback, which the engine runs when the target of a
    /// weak cell has become unreachable. It takes the address of the cell out
    /// of the side record and releases the cell. If the record holds a
    /// finalizer, it leaves it there and asks for the second phase.
    ///
    /// The engine runs it for a cell that exists; the side record of such a
    /// cell holds the address, so the address is always found.
    pub fn first_pass_callback(engine: &mut Engine, wci: &mut WeakCallbackInfo)
        requires
            old(engine)@.wf(),
            old(wci).is_first_pass(),
            old(wci).parameter() < old(engine)@.records.len(),
            old(engine)@.records[old(wci).parameter() as int].pointer matches Some(address)
                && old(engine)@.cell_live(address),
        ensures
            final(engine)@ == old(engine)@.first_pass(old(wci).parameter()),
            final(engine)@.wf(),
            final(wci).parameter() == old(wci).parameter(),
            final(wci).is_first_pass(),
            final(wci).wants_second_pass() == (old(wci).wants_second_pass() || old(
                engine,
            )@.records[old(wci).parameter() as int].finalizer is Some),
    {
        let weak_data = wci.get_parameter();
        let unbound = engine.unbind_record(weak_data);
        engine.global_reset(unbound.address);
        if unbound.second_pass {
            wci.set_second_pass_callback();
        }
        proof {
            old(engine)@.lemma_first_pass(weak_data);
        }
    }

    /// The second-phase callback, which the engine runs after the collection
    /// cycle for a side record whose first-phase callback asked for it. It
    /// takes the finalizer out of the record and runs it; if the finalizer is
    /// gone, it does nothing.
    pub fn second_pass_callback(engine: &mut Engine, wci: &WeakCallbackInfo)
        requires
            old(engine)@.wf(),
            wci.parameter() < old(engine)@.records.len(),
        ensures
            final(engine)@ == old(engine)@.second_pass(wci.parameter()),
            final(engine)@.wf(),
    {
        let weak_data = wci.get_parameter();
        if let Some(finalizer) = engine.take_finalizer(weak_data) {
            engine.run_finalizer(finalizer);
        } else {
            proof {
                assert(engine@.records =~= old(engine)@.records);
            }
        }
    }

    /// Drops the reference. If it is bound and its instance is alive, its
    /// cell is released; if the instance has been disposed, the cell is gone
    /// already. Its side record is given up, and its finalizer will not run.
    pub fn drop(self, engine: &mut Engine)
        requires
            old(engine)@.wf(),
            self.wf(old(engine)@),
        ensures
            final(engine)@ == self.dropped(old(engine)@),
            final(engine)@.wf(),
    {
        if let Some(weak_data) = self.data {
            let alive = self.isolate_handle.get_isolate_ptr(engine) != 0;
            if let Some(data) = engine.unpin_record(weak_data, alive) {
                engine.global_reset(data);
            }
            proof {
                old(engine)@.lemma_unpin(weak_data, alive);
            }
        }
    }

    /// What `eq` says of two weak references of live instances in state `s`:
    /// their hosts match, and either both are bound and refer to the same
    /// object, or both are empty.
    pub open spec fn equals<T2>(&self, other: &Weak<T2>, s: EngineState) -> bool {
        match comparison(self.host(s), self.pointer(s), other.host(s), other.pointer(s)) {
            WeakComparison::Unequal => false,
            WeakComparison::Equal => true,
            WeakComparison::Targets(a, b) => s.object_at(a) == s.object_at(b),
        }
    }

    /// What `eq_handle` says of a weak reference and a valid handle of
    /// another kind in state `s`: their hosts match, the weak reference is
    /// bound, and both refer to the same object.
    pub open spec fn equals_handle<Rhs: Handle>(&self, other: &Rhs, s: EngineState) -> bool {
        match comparison(
            self.host(s),
            self.pointer(s),
            other.info(s).host,
            Some(other.info(s).data),
        ) {
            WeakComparison::Unequal => false,
            WeakComparison::Equal => true,
            WeakComparison::Targets(a, b) => s.object_at(a) == s.object_at(b),
        }
    }

    /// Whether two weak references are equal. Neither instance may have been
    /// disposed.
    pub fn eq<T2>(&self, other: &Weak<T2>, engine: &Engine) -> (equal: bool)
        requires
            engine@.wf(),
            self.wf(engine@),
            other.wf(engine@),
            self.host(engine@).usage_error(other.host(engine@), None)
                != Some(HandleError::DisposedInstanceAccess),
        ensures
            equal == self.equals(other, engine@),
    {
        let self_host = HandleHost::from_isolate_handle(engine, &self.isolate_handle);
        let other_host = HandleHost::from_isolate_handle(engine, &other.isolate_handle);
        match compare(self_host, self.get_pointer(engine), other_host, other.get_pointer(engine)) {
            WeakComparison::Unequal => false,
            WeakComparison::Equal => true,
            WeakComparison::Targets(self_data, other_data) => {
                engine.object_at(self_data) == engine.object_at(other_data)
            },
        }
    }

    /// Whether the weak reference is bound and refers to the same object of
    /// the same instance as another valid handle. The instance of the weak
    /// reference must not have been disposed.
    pub fn eq_handle<Rhs: Handle>(&self, other: &Rhs, engine: &Engine) -> (equal: bool)
        requires
            engine@.wf(),
            self.wf(engine@),
            other.info(engine@).valid(engine@),
            self.host(engine@).usage_error(other.info(engine@).host, None)
                != Some(HandleError::DisposedInstanceAccess),
        ensures
            equal == self.equals_handle(other, engine@),
            equal == (self.host(engine@).matches(other.info(engine@).host, None) && (self.pointer(
                engine@,
            ) matches Some(address) && engine@.object_at(address) == engine@.object_at(
                other.info(engine@).data,
            ))),
    {
        let other_info = other.get_handle_info(engine);
        let self_host = HandleHost::from_isolate_handle(engine, &self.isolate_handle);
        match compare(self_host, self.get_pointer(engine), other_info.host, Some(other_info.data)) {
            WeakComparison::Unequal => false,
            WeakComparison::Equal => true,
            WeakComparison::Targets(self_data, other_data) => {
                engine.object_at(self_data) == engine.object_at(other_data)
            },
        }
    }

    /// Feeds the target into a hasher, or nothing if the reference is empty.
    /// The instance of the reference must be alive.
    pub fn hash(&self, engine: &Engine, state: &mut DefaultHasher)
        requires
            engine@.wf(),
            self.wf(engine@),
            self.host(engine@).access_error() is None,
        ensures
            final(state)@ == (match self.pointer(engine@) {
                Some(address) => old(state)@.push(engine@.object_at(address).hash_bytes()),
                None => old(state)@,
            }),
    {
        if let Some(data) = self.get_pointer(engine) {
            engine.object_at(data).hash(state);
        }
    }
}

} // verus!
