//! Transient and persistent references, and what they have in common.
use std::collections::hash_map::DefaultHasher;
use core::marker::PhantomData;
use vstd::prelude::*;
use crate::engine::Engine;
use crate::engine::HandleScope;
use crate::engine::Isolate;
use crate::engine::IsolateHandle;
use crate::host::HandleError;
use crate::host::HandleHost;
use crate::state::EngineState;
use crate::state::Object;

verus! {

/// What a handle knows of itself: the address of its storage cell, and the
/// instance that hosts it.
#[derive(Debug)]
pub struct HandleInfo<T> {
    pub data: usize,
    pub host: HandleHost,
    pub marker: PhantomData<T>,
}

impl<T> Clone for HandleInfo<T> {
    fn clone(&self) -> (info: Self)
        ensures
            info == *self,
    {
        *self
    }
}

impl<T> Copy for HandleInfo<T> {

}

impl<T> HandleInfo<T> {
    /// The information of a handle to the cell at `data`, hosted by `host`.
    pub fn new(data: usize, host: HandleHost) -> (info: Self)
        ensures
            info == (HandleInfo::<T> { data, host, marker: PhantomData }),
    {
        HandleInfo { data, host, marker: PhantomData }
    }

    /// The handle refers to a cell that exists in state `s`, and the host it
    /// names is the instance that owns that cell.
    pub open spec fn valid(self, s: EngineState) -> bool {
        &&& s.cell_live(self.data)
        &&& match self.host {
            HandleHost::Scope => true,
            HandleHost::Isolate(isolate) => s.cells[self.data as int].isolate() == isolate,
            HandleHost::DisposedIsolate => false,
        }
    }

    /// The handle may be used with the instance at `isolate`: it is valid, its
    /// host raises no error against that instance, and its cell is one of that
    /// instance. The last part is more than the check of the hosts can see for
    /// a transient handle.
    pub open spec fn hosted_by(self, s: EngineState, isolate: usize) -> bool {
        &&& self.valid(s)
        &&& self.host.isolate_error(isolate) is None
        &&& s.cells[self.data as int].isolate() == isolate
    }
}

/// A reference to an object on the engine's heap.
pub trait Handle: Sized {
    /// The type of the object that the handle refers to.
    type Data;

    /// What the handle knows of itself in state `s`.
    spec fn info(&self, s: EngineState) -> HandleInfo<Self::Data>;

    /// What the handle knows of itself.
    fn get_handle_info(&self, engine: &Engine) -> (info: HandleInfo<Self::Data>)
        requires
            engine@.inv(),
        ensures
            info == self.info(engine@),
    ;

    /// Reads the object that the handle refers to, for use with the instance
    /// at `isolate`. The handle is neither cloned nor turned into a transient
    /// reference.
    ///
    /// The handle must be valid, and its host must raise no error against
    /// `isolate`: it is neither disposed nor another instance.
    fn open(&self, engine: &Engine, isolate: &Isolate) -> (object: Object)
        requires
            engine@.inv(),
            self.info(engine@).valid(engine@),
            self.info(engine@).host.isolate_error(isolate@) is None,
        ensures
            object == engine@.object_at(self.info(engine@).data),
    {
        let info = self.get_handle_info(engine);
        info.host.assert_match_isolate(isolate);
        engine.object_at(info.data)
    }

    /// Reads the object that the handle refers to without checking which
    /// instance is entered. The handle must be valid; in particular, its host
    /// has not been disposed.
    fn get_unchecked(&self, engine: &Engine) -> (object: Object)
        requires
            engine@.inv(),
            self.info(engine@).host.access_error() is None,
            self.info(engine@).valid(engine@),
        ensures
            object == engine@.object_at(self.info(engine@).data),
    {
        let info = self.get_handle_info(engine);
        engine.object_at(info.data)
    }
}

/// A transient reference: it refers to a cell that exists while the scope it
/// was minted in is active. It is never empty; where a reference may be absent,
/// use `Option<Local>`.
#[derive(Debug)]
pub struct Local<'s, T> {
    data: usize,
    scope: PhantomData<&'s ()>,
    marker: PhantomData<T>,
}

impl<'s, T> Clone for Local<'s, T> {
    fn clone(&self) -> (local: Self)
        ensures
            local == *self,
    {
        *self
    }
}

impl<'s, T> Copy for Local<'s, T> {

}

impl<'s, T> Local<'s, T> {
    #[verifier::type_invariant]
    spec fn non_null(self) -> bool {
        self.data != 0
    }

    /// The address of the cell the reference refers to.
    pub closed spec fn address(&self) -> usize {
        self.data
    }

    /// The reference refers to a transient cell that exists in state `s`.
    pub open spec fn wf(&self, s: EngineState) -> bool {
        s.cell_live(self.address()) && s.cells[self.address() as int] is Transient
    }

    /// Mints a transient reference in `scope` to the object that `handle`
    /// refers to.
    ///
    /// The handle must be usable with the scope's instance, and the engine
    /// must have room for the new cell.
    pub fn new<H: Handle<Data = T>>(engine: &mut Engine, scope: &'s HandleScope, handle: &H) -> (local:
        Self)
        requires
            old(engine)@.wf(),
            old(engine)@.scope_live(scope.isolate(), scope.index()),
            handle.info(old(engine)@).hosted_by(old(engine)@, scope.isolate()),
            old(engine)@.has_room(),
        ensures
            local.address() == old(engine)@.cells.len(),
            final(engine)@ == old(engine)@.mint(
                scope.isolate(),
                scope.index(),
                handle.info(old(engine)@).data,
            ),
            final(engine)@.wf(),
            local.wf(final(engine)@),
            final(engine)@.object_at(local.address()) == old(engine)@.object_at(
                handle.info(old(engine)@).data,
            ),
    {
        let info = handle.get_handle_info(engine);
        info.host.assert_match_isolate(scope.as_isolate());
        scope.cast_local(engine, info.data).unwrap()
    }

    /// Views a reference to an object as a reference to an object of another
    /// type. The cell it refers to is the same.
    pub fn cast<A>(other: Local<'s, A>) -> (local: Self)
        ensures
            local.address() == other.address(),
    {
        proof {
            use_type_invariant(&other);
        }
        Local { data: other.data, scope: PhantomData, marker: PhantomData }
    }

    /// The transient reference to the cell at `ptr`, or nothing if `ptr` is
    /// the null address.
    pub fn from_raw(ptr: usize) -> (local: Option<Self>)
        ensures
            ptr == 0 <==> local is None,
            local matches Some(l) ==> l.address() == ptr,
    {
        if ptr == 0 {
            None
        } else {
            Some(Local::from_non_null(ptr))
        }
    }

    /// The transient reference to the cell at the non-null address `nn`.
    pub fn from_non_null(nn: usize) -> (local: Self)
        requires
            nn != 0,
        ensures
            local.address() == nn,
    {
        Local { data: nn, scope: PhantomData, marker: PhantomData }
    }

    /// The address of the cell, which is not null.
    pub fn as_non_null(self) -> (nn: usize)
        ensures
            nn == self.address(),
            nn != 0,
    {
        proof {
            use_type_invariant(&self);
        }
        self.data
    }

    /// The addresses of the cells of a slice of references, in order.
    pub fn slice_into_raw(slice: &[Self]) -> (raw: Vec<usize>)
        ensures
            raw@.len() == slice@.len(),
            forall|i: int| 0 <= i < slice@.len() ==> raw@[i] == (#[trigger] slice@[i]).address(),
    {
        let mut raw: Vec<usize> = Vec::new();
        let mut i: usize = 0;
        while i < slice.len()
            invariant
                i <= slice@.len(),
                raw@.len() == i,
                forall|j: int| 0 <= j < i ==> raw@[j] == (#[trigger] slice@[j]).address(),
            decreases slice@.len() - i,
        {
            raw.push(slice[i].as_non_null());
            i += 1;
        }
        raw
    }

    /// Reads the object that the reference refers to. The cell must exist,
    /// which it does while the scope of the reference is active.
    pub fn deref(&self, engine: &Engine) -> (object: Object)
        requires
            self.wf(engine@),
        ensures
            object == engine@.object_at(self.address()),
    {
        engine.object_at(self.data)
    }

    /// Reads the object that the reference refers to.
    pub fn borrow(&self, engine: &Engine) -> (object: Object)
        requires
            self.wf(engine@),
        ensures
            object == engine@.object_at(self.address()),
    {
        self.deref(engine)
    }

    /// Feeds the object that the reference refers to into a hasher.
    pub fn hash(&self, engine: &Engine, state: &mut DefaultHasher)
        requires
            self.wf(engine@),
        ensures
            final(state)@ == old(state)@.push(engine@.object_at(self.address()).hash_bytes()),
    {
        self.deref(engine).hash(state)
    }

    /// Whether this reference and another valid handle refer to the same
    /// object of the same instance. Where the instance of this reference
    /// cannot be told, the hosts are taken to match.
    pub fn eq<Rhs: Handle>(&self, other: &Rhs, engine: &Engine) -> (equal: bool)
        requires
            engine@.inv(),
            self.wf(engine@),
            self.info(engine@).host.usage_error(other.info(engine@).host, None)
                != Some(HandleError::DisposedInstanceAccess),
            other.info(engine@).valid(engine@),
        ensures
            equal == (self.info(engine@).host.matches(other.info(engine@).host, None)
                && engine@.object_at(self.address()) == engine@.object_at(
                other.info(engine@).data,
            )),
    {
        let i1 = self.get_handle_info(engine);
        let i2 = other.get_handle_info(engine);
        i1.host.match_host(i2.host, None) && engine.object_at(i1.data) == engine.object_at(
            i2.data,
        )
    }
}

impl HandleScope {
    /// Mints a transient reference in this scope to the object that the cell
    /// at `source` refers to, or returns nothing if the engine has no room
    /// for another cell: that the engine runs out of cells is no misuse, and
    /// callers have to reckon with it.
    pub fn cast_local<'s, T>(&'s self, engine: &mut Engine, source: usize) -> (local: Option<
        Local<'s, T>,
    >)
        requires
            old(engine)@.inv(),
            old(engine)@.scope_live(self.isolate(), self.index()),
            old(engine)@.holds(self.isolate(), source),
        ensures
            old(engine)@.has_room() ==> {
                &&& local matches Some(l)
                &&& l.address() == old(engine)@.cells.len()
                &&& l.wf(final(engine)@)
                &&& final(engine)@ == old(engine)@.mint(self.isolate(), self.index(), source)
            },
            !old(engine)@.has_room() ==> local is None && final(engine)@ == old(engine)@,
            final(engine)@.inv(),
            old(engine)@.wf() ==> final(engine)@.wf(),
    {
        Local::from_raw(engine.local_new(self, source))
    }
}

impl<'s, T> Handle for Local<'s, T> {
    type Data = T;

    open spec fn info(&self, s: EngineState) -> HandleInfo<T> {
        HandleInfo { data: self.address(), host: HandleHost::Scope, marker: PhantomData }
    }

    fn get_handle_info(&self, engine: &Engine) -> (info: HandleInfo<T>) {
        HandleInfo::new(self.as_non_null(), HandleHost::Scope)
    }
}

/// A persistent reference: it owns a storage cell that exists until the
/// reference is dropped or its instance is disposed, whatever scopes are
/// entered and left meanwhile.
#[derive(Debug)]
pub struct Global<T> {
    data: usize,
    isolate_handle: IsolateHandle,
    marker: PhantomData<T>,
}

impl<T> Global<T> {
    #[verifier::type_invariant]
    spec fn non_null(self) -> bool {
        self.data != 0
    }

    /// The address of the cell the reference owns.
    pub closed spec fn address(&self) -> usize {
        self.data
    }

    /// The address of the instance the reference was registered with.
    pub closed spec fn instance(&self) -> usize {
        self.isolate_handle@
    }

    /// The reference owns a persistent cell of its instance that has been
    /// registered and not released. The cell exists while the instance is
    /// alive.
    pub open spec fn wf(&self, s: EngineState) -> bool {
        &&& self.address() < s.cells.len()
        &&& s.cells[self.address() as int] is Persistent
        &&& s.cells[self.address() as int].isolate() == self.instance()
    }

    /// The state after the reference has been dropped in state `s`: its cell
    /// is released, unless its instance has been disposed.
    pub open spec fn dropped(&self, s: EngineState) -> EngineState {
        if s.is_alive(self.instance()) {
            s.release(self.address())
        } else {
            s
        }
    }

    /// Registers a persistent reference of the instance at `isolate` to the
    /// object that `handle` refers to.
    ///
    /// The handle must be usable with that instance, and the engine must have
    /// room for the new cell.
    pub fn new<H: Handle<Data = T>>(engine: &mut Engine, isolate: &Isolate, handle: &H) -> (global:
        Self)
        requires
            old(engine)@.wf(),
            handle.info(old(engine)@).hosted_by(old(engine)@, isolate@),
            old(engine)@.has_room(),
        ensures
            global.address() == old(engine)@.cells.len(),
            global.instance() == isolate@,
            final(engine)@ == old(engine)@.register(isolate@, handle.info(old(engine)@).data),
            final(engine)@.wf(),
            global.wf(final(engine)@),
    {
        let info = handle.get_handle_info(engine);
        info.host.assert_match_isolate(isolate);
        Global::new_raw(engine, isolate.address(), info.data)
    }

    /// Registers a persistent reference of the instance at `isolate` to the
    /// object that the cell at `data` refers to. This is what `new` and
    /// `clone` share.
    pub(crate) fn new_raw(engine: &mut Engine, isolate: usize, data: usize) -> (global: Self)
        requires
            old(engine)@.inv(),
            old(engine)@.holds(isolate, data),
            old(engine)@.has_room(),
        ensures
            global.address() == old(engine)@.cells.len(),
            global.instance() == isolate,
            final(engine)@ == old(engine)@.register(isolate, data),
            final(engine)@.inv(),
            old(engine)@.wf() ==> final(engine)@.wf(),
            global.wf(final(engine)@),
    {
        let data = engine.global_new(isolate, data);
        let isolate_handle = IsolateHandle::from_address(isolate);
        Global { data, isolate_handle, marker: PhantomData }
    }

    /// Registers a persistent reference of the instance at `isolate` to the
    /// object that the cell at `data` refers to, or returns nothing if the
    /// engine has no room for another cell.
    pub(crate) fn try_new_raw(engine: &mut Engine, isolate: usize, data: usize) -> (global: Option<
        Self,
    >)
        requires
            old(engine)@.inv(),
            old(engine)@.holds(isolate, data),
        ensures
            old(engine)@.has_room() ==> {
                &&& global matches Some(g)
                &&& g.address() == old(engine)@.cells.len()
                &&& g.instance() == isolate
                &&& g.wf(final(engine)@)
                &&& final(engine)@ == old(engine)@.register(isolate, data)
            },
            !old(engine)@.has_room() ==> global is None && final(engine)@ == old(engine)@,
            final(engine)@.inv(),
            old(engine)@.wf() ==> final(engine)@.wf(),
    {
        let data = engine.global_new(isolate, data);
        if data == 0 {
            None
        } else {
            Some(Global { data, isolate_handle: IsolateHandle::from_address(isolate), marker: PhantomData })
        }
    }

    /// Gives up the reference and returns the address of its cell, which stays
    /// registered. Unless the address is turned back into a reference with
    /// [`Global::from_raw`], the cell is never released and its object never
    /// collected.
    pub fn into_raw(self) -> (data: usize)
        ensures
            data == self.address(),
            data != 0,
    {
        proof {
            use_type_invariant(&self);
        }
        self.data
    }

    /// Turns an address that [`Global::into_raw`] returned back into the
    /// reference, for the instance it was registered with. Each address may be
    /// turned back once: two references to one cell would release it twice.
    pub fn from_raw(isolate: &Isolate, data: usize) -> (global: Self)
        requires
            data != 0,
        ensures
            global.address() == data,
            global.instance() == isolate@,
    {
        let isolate_handle = isolate.thread_safe_handle();
        Global { data, isolate_handle, marker: PhantomData }
    }

    /// Reads the object that the reference refers to, for use with the
    /// instance at `isolate`, which must be the host of the reference.
    pub fn open(&self, engine: &Engine, isolate: &Isolate) -> (object: Object)
        requires
            engine@.inv(),
            self.info(engine@).valid(engine@),
            self.info(engine@).host.isolate_error(isolate@) is None,
        ensures
            object == engine@.object_at(self.address()),
    {
        Handle::open(self, engine, isolate)
    }

    /// Registers a second persistent reference to the same object, with a
    /// cell of its own. The instance of the reference must be alive.
    pub fn clone(&self, engine: &mut Engine) -> (global: Self)
        requires
            old(engine)@.wf(),
            self.info(old(engine)@).host.access_error() is None,
            self.info(old(engine)@).valid(old(engine)@),
            old(engine)@.has_room(),
        ensures
            global.address() == old(engine)@.cells.len(),
            global.instance() == self.instance(),
            final(engine)@ == old(engine)@.register(self.instance(), self.address()),
            final(engine)@.wf(),
            global.wf(final(engine)@),
    {
        let info = self.get_handle_info(engine);
        Global::new_raw(engine, info.host.get_isolate(), info.data)
    }

    /// Releases the cell of the reference, unless the instance has been
    /// disposed, in which case the cell is gone already and nothing is done.
    pub fn drop(self, engine: &mut Engine)
        requires
            old(engine)@.inv(),
            self.wf(old(engine)@),
        ensures
            final(engine)@ == self.dropped(old(engine)@),
            final(engine)@.inv(),
            old(engine)@.wf() ==> final(engine)@.wf(),
    {
        if self.isolate_handle.get_isolate_ptr(engine) == 0 {
            // The instance has been disposed, and the cell with it.
        } else {
            // Release the cell that this reference owns.
            engine.global_reset(self.data);
        }
    }

    /// Reads the object that the reference refers to. The instance of the
    /// reference must be alive.
    pub fn borrow(&self, engine: &Engine) -> (object: Object)
        requires
            engine@.inv(),
            self.info(engine@).host.access_error() is None,
            self.info(engine@).valid(engine@),
        ensures
            object == engine@.object_at(self.address()),
    {
        let info = self.get_handle_info(engine);
        engine.object_at(info.data)
    }

    /// Feeds the object that the reference refers to into a hasher. The
    /// instance of the reference must be alive.
    pub fn hash(&self, engine: &Engine, state: &mut DefaultHasher)
        requires
            engine@.inv(),
            self.info(engine@).host.access_error() is None,
            self.info(engine@).valid(engine@),
        ensures
            final(state)@ == old(state)@.push(engine@.object_at(self.address()).hash_bytes()),
    {
        engine.object_at(self.data).hash(state)
    }

    /// Whether this reference and another valid handle refer to the same
    /// object of the same instance.
    pub fn eq<Rhs: Handle>(&self, other: &Rhs, engine: &Engine) -> (equal: bool)
        requires
            engine@.inv(),
            self.info(engine@).valid(engine@),
            self.info(engine@).host.usage_error(other.info(engine@).host, None)
                != Some(HandleError::DisposedInstanceAccess),
            other.info(engine@).valid(engine@),
        ensures
            equal == (self.info(engine@).host.matches(other.info(engine@).host, None)
                && engine@.object_at(self.address()) == engine@.object_at(
                other.info(engine@).data,
            )),
    {
        let i1 = self.get_handle_info(engine);
        let i2 = other.get_handle_info(engine);
        i1.host.match_host(i2.host, None) && engine.object_at(i1.data) == engine.object_at(
            i2.data,
        )
    }
}

impl<T> Handle for Global<T> {
    type Data = T;

    open spec fn info(&self, s: EngineState) -> HandleInfo<T> {
        HandleInfo {
            data: self.address(),
            host: HandleHost::of_handle(s, self.instance()),
            marker: PhantomData,
        }
    }

    fn get_handle_info(&self, engine: &Engine) -> (info: HandleInfo<T>) {
        proof {
            use_type_invariant(self);
        }
        HandleInfo::new(self.data, HandleHost::from_isolate_handle(engine, &self.isolate_handle))
    }
}

} // verus!
