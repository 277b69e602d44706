//! An executable engine: the tables of [`EngineState`] held in vectors, and the
//! entry points through which the handle layer reaches them.
//!
//! Every entry point states exactly how it changes the state. The entry points
//! that touch storage cells and side records keep the structural invariant;
//! the full invariant is restored by the operations of the handle layer, which
//! use several entry points in a row.
use vstd::prelude::*;
use crate::record::Finalizer;
use crate::record::Unbound;
use crate::record::WeakData;
use crate::state::EngineState;
use crate::state::Object;
use crate::state::ScopeState;
use crate::state::SecondPass;
use crate::state::StorageCell;

verus! {

/// The engine: every instance ever created, with its scopes and storage cells,
/// and the side records pinned for weak registrations.
pub struct Engine {
    capacity: usize,
    isolates: Vec<bool>,
    scopes: Vec<ScopeState>,
    cells: Vec<StorageCell>,
    records: Vec<WeakData>,
    second_pass: Vec<SecondPass>,
    finalized: Vec<u64>,
}

impl View for Engine {
    type V = EngineState;

    closed spec fn view(&self) -> EngineState {
        EngineState {
            capacity: self.capacity,
            isolates: self.isolates@,
            scopes: self.scopes@,
            cells: self.cells@,
            records: self.records@,
            second_pass: self.second_pass@,
            finalized: self.finalized@,
        }
    }
}

/// An engine instance that is currently entered. Holding it is what allows
/// host code to call into that instance. Its view is the instance's address.
#[derive(Debug)]
pub struct Isolate {
    address: usize,
}

impl View for Isolate {
    type V = usize;

    closed spec fn view(&self) -> usize {
        self.address
    }
}

/// A weak handle to an engine instance, which can be copied freely and outlives
/// the instance. Its view is the address of the instance it was made from.
#[derive(Clone, Copy, Debug)]
pub struct IsolateHandle {
    address: usize,
}

impl View for IsolateHandle {
    type V = usize;

    closed spec fn view(&self) -> usize {
        self.address
    }
}

/// A transient scope: the bracket inside which transient references are
/// minted, and after which they are gone.
#[derive(Debug)]
pub struct HandleScope {
    isolate: Isolate,
    index: usize,
}

impl Isolate {
    /// The instance at `address`, which the caller knows to be entered.
    pub fn from_address(address: usize) -> (isolate: Isolate)
        ensures
            isolate@ == address,
    {
        Isolate { address }
    }

    /// The address of the instance.
    pub fn address(&self) -> (address: usize)
        ensures
            address == self@,
    {
        self.address
    }

    /// A weak handle to this instance.
    pub fn thread_safe_handle(&self) -> (handle: IsolateHandle)
        ensures
            handle@ == self@,
    {
        IsolateHandle { address: self.address }
    }
}

impl IsolateHandle {
    /// A weak handle to the instance at `address`, which need not be alive.
    pub fn from_address(address: usize) -> (handle: IsolateHandle)
        ensures
            handle@ == address,
    {
        IsolateHandle { address }
    }

    /// The address of the instance, or the null address once it has been
    /// disposed.
    pub fn get_isolate_ptr(&self, engine: &Engine) -> (address: usize)
        ensures
            address == (if engine@.is_alive(self@) {
                self@
            } else {
                0
            }),
    {
        if self.address < engine.isolates.len() && engine.isolates[self.address] {
            self.address
        } else {
            0
        }
    }
}

impl HandleScope {
    /// The instance the scope belongs to.
    pub closed spec fn isolate(&self) -> usize {
        self.isolate@
    }

    /// The scope's place in the engine's scope table.
    pub closed spec fn index(&self) -> usize {
        self.index
    }

    /// Enters a new scope of `isolate`.
    pub fn new(engine: &mut Engine, isolate: &Isolate) -> (scope: HandleScope)
        requires
            old(engine)@.inv(),
            old(engine)@.is_alive(isolate@),
        ensures
            final(engine)@ == old(engine)@.enter_scope(isolate@),
            scope.isolate() == isolate@,
            scope.index() == old(engine)@.scopes.len(),
            final(engine)@.inv(),
            final(engine)@.scope_live(scope.isolate(), scope.index()),
            old(engine)@.wf() ==> final(engine)@.wf(),
    {
        let index = engine.scopes.len();
        engine.scopes.push(ScopeState { isolate: isolate.address, active: true });
        proof {
            assert(engine@ == old(engine)@.enter_scope(isolate@));
            old(engine)@.lemma_enter_scope(isolate@);
        }
        HandleScope { isolate: Isolate { address: isolate.address }, index }
    }

    /// Leaves the scope. Every transient cell minted in it ceases to exist.
    pub fn exit(self, engine: &mut Engine)
        requires
            old(engine)@.inv(),
            self.index() < old(engine)@.scopes.len(),
        ensures
            final(engine)@ == old(engine)@.exit_scope(self.index()),
            final(engine)@.inv(),
            old(engine)@.wf() ==> final(engine)@.wf(),
    {
        engine.scopes[self.index].active = false;
        proof {
            assert(engine@.scopes =~= old(engine)@.exit_scope(self.index()).scopes);
            old(engine)@.lemma_exit_scope(self.index());
        }
    }

    /// The address of the instance the scope belongs to.
    pub fn get_isolate_ptr(&self) -> (address: usize)
        ensures
            address == self.isolate(),
    {
        self.isolate.address
    }

    /// The instance the scope belongs to.
    pub fn as_isolate(&self) -> (isolate: &Isolate)
        ensures
            isolate@ == self.isolate(),
    {
        &self.isolate
    }
}

impl Engine {
    /// A fresh engine with no instance, which will hand out at most `capacity`
    /// storage cells.
    pub fn new(capacity: usize) -> (engine: Engine)
        ensures
            engine@ == EngineState::initial(capacity),
            engine@.wf(),
    {
        let mut isolates: Vec<bool> = Vec::new();
        isolates.push(false);
        let mut cells: Vec<StorageCell> = Vec::new();
        cells.push(StorageCell::Released);
        let engine = Engine {
            capacity,
            isolates,
            scopes: Vec::new(),
            cells,
            records: Vec::new(),
            second_pass: Vec::new(),
            finalized: Vec::new(),
        };
        proof {
            let s = EngineState::initial(capacity);
            assert(engine@.isolates =~= s.isolates);
            assert(engine@.cells =~= s.cells);
            assert(engine@.scopes =~= s.scopes);
            assert(engine@.records =~= s.records);
            assert(engine@.second_pass =~= s.second_pass);
            assert(engine@.finalized =~= s.finalized);
        }
        engine
    }

    /// Creates a new instance, alive and entered.
    pub fn create_isolate(&mut self) -> (isolate: Isolate)
        requires
            old(self)@.inv(),
        ensures
            final(self)@ == old(self)@.create_isolate(),
            isolate@ == old(self)@.isolates.len(),
            isolate@ != 0,
            final(self)@.is_alive(isolate@),
            final(self)@.inv(),
            old(self)@.wf() ==> final(self)@.wf(),
    {
        let address = self.isolates.len();
        self.isolates.push(true);
        proof {
            assert(self@ == old(self)@.create_isolate());
            old(self)@.lemma_create_isolate();
        }
        Isolate { address }
    }

    /// Disposes of an instance. Its storage cells cease to exist, and the
    /// engine fires no further callback for it.
    pub fn dispose_isolate(&mut self, isolate: Isolate)
        requires
            old(self)@.inv(),
            old(self)@.is_alive(isolate@),
        ensures
            final(self)@ == old(self)@.dispose_isolate(isolate@),
            !final(self)@.is_alive(isolate@),
            final(self)@.inv(),
            old(self)@.wf() ==> final(self)@.wf(),
    {
        self.isolates[isolate.address] = false;
        proof {
            assert(self@.isolates =~= old(self)@.dispose_isolate(isolate@).isolates);
            old(self)@.lemma_dispose_isolate(isolate@);
        }
    }

    /// Whether the instance at `isolate` is alive.
    pub fn is_alive(&self, isolate: usize) -> (alive: bool)
        ensures
            alive == self@.is_alive(isolate),
    {
        isolate < self.isolates.len() && self.isolates[isolate]
    }

    /// Whether the engine can hand out one more storage cell.
    pub fn has_room(&self) -> (room: bool)
        ensures
            room == self@.has_room(),
    {
        self.cells.len() <= self.capacity && self.cells.len() < usize::MAX
    }

    /// The number of entries of the cell table: one more than the largest
    /// address handed out so far.
    pub fn cell_count(&self) -> (count: usize)
        ensures
            count == self@.cells.len(),
    {
        self.cells.len()
    }

    /// What the cell at `address` holds.
    pub fn cell(&self, address: usize) -> (cell: StorageCell)
        requires
            address < self@.cells.len(),
        ensures
            cell == self@.cells[address as int],
    {
        self.cells[address]
    }

    /// Whether the cell at `address` exists.
    pub fn is_live(&self, address: usize) -> (live: bool)
        requires
            self@.inv(),
        ensures
            live == self@.cell_live(address),
    {
        if address >= self.cells.len() {
            return false;
        }
        proof {
            assert(self@.cell_inv(self@.cells[address as int]));
        }
        match self.cells[address] {
            StorageCell::Released => false,
            StorageCell::Transient { isolate, object: _, scope } => {
                self.isolates[isolate] && self.scopes[scope].active
            },
            StorageCell::Persistent { isolate, object: _ } => self.isolates[isolate],
            StorageCell::Weak { isolate, object: _, parameter: _ } => self.isolates[isolate],
        }
    }

    /// Reads the object that the existing cell at `address` refers to.
    pub fn object_at(&self, address: usize) -> (object: Object)
        requires
            self@.cell_live(address),
        ensures
            object == self@.object_at(address),
    {
        match self.cells[address] {
            StorageCell::Transient { isolate: _, object, scope: _ } => object,
            StorageCell::Persistent { isolate: _, object } => object,
            StorageCell::Weak { isolate: _, object, parameter: _ } => object,
            StorageCell::Released => unreached(),
        }
    }

    /// The tokens of the finalizers that have run, oldest first.
    pub fn finalized(&self) -> (tokens: &Vec<u64>)
        ensures
            tokens@ == self@.finalized,
    {
        &self.finalized
    }

    /// Creates a new object of the scope's instance and mints the transient
    /// cell that refers to it. Returns the address of the cell, or the null
    /// address if the engine has no room for another cell.
    pub fn allocate(&mut self, scope: &HandleScope) -> (address: usize)
        requires
            old(self)@.inv(),
            old(self)@.scope_live(scope.isolate(), scope.index()),
        ensures
            old(self)@.has_room() ==> address == old(self)@.cells.len() && final(self)@ == old(
                self,
            )@.push_cell(
                StorageCell::Transient {
                    isolate: scope.isolate(),
                    object: Object { id: address },
                    scope: scope.index(),
                },
            ),
            !old(self)@.has_room() ==> address == 0 && final(self)@ == old(self)@,
            final(self)@.inv(),
            old(self)@.wf() ==> final(self)@.wf(),
    {
        if !self.has_room() {
            return 0;
        }
        let address = self.cells.len();
        let cell = StorageCell::Transient {
            isolate: scope.isolate.address,
            object: Object { id: address },
            scope: scope.index,
        };
        self.cells.push(cell);
        proof {
            assert(self@ == old(self)@.push_cell(cell));
            old(self)@.lemma_push_cell(cell);
        }
        address
    }

    /// Mints a transient cell in `scope` for the object that the cell at
    /// `source` refers to. Returns the address of the new cell, or the null
    /// address if the engine has no room for another cell.
    pub fn local_new(&mut self, scope: &HandleScope, source: usize) -> (address: usize)
        requires
            old(self)@.inv(),
            old(self)@.scope_live(scope.isolate(), scope.index()),
            old(self)@.holds(scope.isolate(), source),
        ensures
            old(self)@.has_room() ==> address == old(self)@.cells.len() && final(self)@ == old(
                self,
            )@.mint(scope.isolate(), scope.index(), source),
            !old(self)@.has_room() ==> address == 0 && final(self)@ == old(self)@,
            final(self)@.inv(),
            old(self)@.wf() ==> final(self)@.wf(),
    {
        if !self.has_room() {
            return 0;
        }
        let object = self.object_at(source);
        let address = self.cells.len();
        self.cells.push(
            StorageCell::Transient { isolate: scope.isolate.address, object, scope: scope.index },
        );
        proof {
            assert(self@ == old(self)@.mint(scope.isolate(), scope.index(), source));
            old(self)@.lemma_mint(scope.isolate(), scope.index(), source);
        }
        address
    }

    /// Registers a persistent cell of `isolate` for the object that the cell at
    /// `source` refers to. Returns the address of the new cell, or the null
    /// address if the engine has no room for another cell.
    pub fn global_new(&mut self, isolate: usize, source: usize) -> (address: usize)
        requires
            old(self)@.inv(),
            old(self)@.holds(isolate, source),
        ensures
            old(self)@.has_room() ==> address == old(self)@.cells.len() && final(self)@ == old(
                self,
            )@.register(isolate, source),
            !old(self)@.has_room() ==> address == 0 && final(self)@ == old(self)@,
            final(self)@.inv(),
            old(self)@.wf() ==> final(self)@.wf(),
    {
        if !self.has_room() {
            return 0;
        }
        let object = self.object_at(source);
        let address = self.cells.len();
        self.cells.push(StorageCell::Persistent { isolate, object });
        proof {
            assert(self@ == old(self)@.register(isolate, source));
            old(self)@.lemma_register(isolate, source);
        }
        address
    }

    /// Registers a weak cell of `isolate` for the object that the cell at
    /// `source` refers to, with the side record at `parameter` as the
    /// parameter of its callbacks, and returns its address.
    pub fn global_new_weak(&mut self, isolate: usize, source: usize, parameter: usize) -> (address:
        usize)
        requires
            old(self)@.inv(),
            old(self)@.holds(isolate, source),
            old(self)@.has_room(),
            parameter < old(self)@.records.len(),
        ensures
            address == old(self)@.cells.len(),
            address != 0,
            final(self)@ == old(self)@.push_cell(
                StorageCell::Weak { isolate, object: old(self)@.object_at(source), parameter },
            ),
            final(self)@.inv(),
    {
        let object = self.object_at(source);
        let address = self.cells.len();
        let cell = StorageCell::Weak { isolate, object, parameter };
        self.cells.push(cell);
        proof {
            assert(self@ == old(self)@.push_cell(cell));
            assert(old(self)@.cell_inv(old(self)@.cells[source as int]));
            old(self)@.lemma_push_cell(cell);
        }
        address
    }

    /// Releases the persistent or weak cell at `address`. A cell can be
    /// released once: afterwards it no longer exists.
    pub fn global_reset(&mut self, address: usize)
        requires
            old(self)@.inv(),
            old(self)@.cell_live(address),
            !(old(self)@.cells[address as int] is Transient),
        ensures
            final(self)@ == old(self)@.release(address),
            final(self)@.inv(),
            old(self)@.wf() && old(self)@.cells[address as int] is Persistent ==> final(self)@.wf(),
    {
        self.cells[address] = StorageCell::Released;
        proof {
            assert(self@ == old(self)@.release(address));
            old(self)@.lemma_release(address);
        }
    }

    /// Pins a new side record, with its address slot unset, and returns its
    /// address.
    pub(crate) fn pin_record(&mut self, finalizer: Option<Finalizer>) -> (parameter: usize)
        requires
            old(self)@.inv(),
            old(self)@.records.len() < old(self)@.cells.len(),
        ensures
            parameter == old(self)@.records.len(),
            final(self)@ == old(self)@.push_record(WeakData { pointer: None, finalizer }),
            final(self)@.inv(),
    {
        let parameter = self.records.len();
        self.records.push(WeakData::new(finalizer));
        proof {
            assert(self@ == old(self)@.push_record(WeakData { pointer: None, finalizer }));
            old(self)@.lemma_push_record(finalizer);
        }
        parameter
    }

    /// Reads the address slot of the side record at `parameter`.
    pub(crate) fn pointer(&self, parameter: usize) -> (pointer: Option<usize>)
        requires
            parameter < self@.records.len(),
        ensures
            pointer == self@.records[parameter as int].pointer,
    {
        self.records[parameter].get_pointer()
    }

    /// Stores the address of a weak cell in the side record at `parameter`.
    pub(crate) fn bind_record(&mut self, parameter: usize, address: usize)
        requires
            old(self)@.inv(),
            parameter < old(self)@.records.len(),
            0 < address < old(self)@.cells.len(),
        ensures
            final(self)@ == old(self)@.set_pointer(parameter, Some(address)),
            final(self)@.inv(),
    {
        self.records[parameter].bind(address);
        proof {
            let s = old(self)@;
            assert(self@.records =~= s.set_pointer(parameter, Some(address)).records);
            s.lemma_set_record(parameter, self@.records[parameter as int]);
        }
    }

    /// Lets the first-phase callback take the address out of the side record
    /// at `parameter`.
    pub(crate) fn unbind_record(&mut self, parameter: usize) -> (unbound: Unbound)
        requires
            old(self)@.inv(),
            parameter < old(self)@.records.len(),
            old(self)@.records[parameter as int].pointer is Some,
        ensures
            unbound.address == old(self)@.records[parameter as int].pointer->0,
            unbound.second_pass == old(self)@.records[parameter as int].finalizer is Some,
            final(self)@ == old(self)@.set_pointer(parameter, None),
            final(self)@.inv(),
    {
        let unbound = self.records[parameter].first_pass();
        proof {
            let s = old(self)@;
            assert(self@.records =~= s.set_pointer(parameter, None).records);
            s.lemma_set_record(parameter, self@.records[parameter as int]);
        }
        unbound
    }

    /// Lets the second-phase callback take the finalizer out of the side
    /// record at `parameter`.
    pub(crate) fn take_finalizer(&mut self, parameter: usize) -> (finalizer: Option<Finalizer>)
        requires
            old(self)@.inv(),
            parameter < old(self)@.records.len(),
        ensures
            finalizer == old(self)@.records[parameter as int].finalizer,
            final(self)@ == old(self)@.set_finalizer(parameter, None),
            final(self)@.inv(),
            old(self)@.wf() ==> final(self)@.wf(),
    {
        let finalizer = self.records[parameter].second_pass();
        proof {
            let s = old(self)@;
            assert(self@.records =~= s.set_finalizer(parameter, None).records);
            assert(s.records[parameter as int].pointer matches Some(a) ==> 0 < a < s.cells.len());
            s.lemma_set_record(parameter, self@.records[parameter as int]);
        }
        finalizer
    }

    /// Gives up the side record at `parameter` for its owner, and returns the
    /// weak cell that is to be released with it.
    pub(crate) fn unpin_record(&mut self, parameter: usize, alive: bool) -> (release: Option<
        usize,
    >)
        requires
            old(self)@.inv(),
            parameter < old(self)@.records.len(),
        ensures
            release == (if alive {
                old(self)@.records[parameter as int].pointer
            } else {
                None
            }),
            final(self)@ == old(self)@.unpin(parameter),
            final(self)@.inv(),
    {
        let release = self.records[parameter].unpin(alive);
        proof {
            let s = old(self)@;
            assert(self@.records =~= s.unpin(parameter).records);
            s.lemma_set_record(parameter, self@.records[parameter as int]);
        }
        release
    }

    /// Runs a finalizer: its token is appended to the log.
    pub(crate) fn run_finalizer(&mut self, finalizer: Finalizer)
        requires
            old(self)@.inv(),
        ensures
            final(self)@ == old(self)@.log(finalizer.token),
            final(self)@.inv(),
            old(self)@.wf() ==> final(self)@.wf(),
    {
        self.finalized.push(finalizer.token);
        proof {
            assert(self@ == old(self)@.log(finalizer.token));
            old(self)@.lemma_log(finalizer.token);
        }
    }

    /// Schedules a second-phase callback.
    pub(crate) fn schedule(&mut self, entry: SecondPass)
        requires
            old(self)@.inv(),
            entry.parameter < old(self)@.records.len(),
        ensures
            final(self)@ == old(self)@.schedule(entry),
            final(self)@.inv(),
            old(self)@.wf() ==> final(self)@.wf(),
    {
        self.second_pass.push(entry);
        proof {
            assert(self@ == old(self)@.schedule(entry));
            old(self)@.lemma_schedule(entry);
        }
    }

    /// Takes every scheduled second-phase callback off the schedule, oldest
    /// first.
    pub(crate) fn take_schedule(&mut self) -> (entries: Vec<SecondPass>)
        requires
            old(self)@.inv(),
        ensures
            entries@ == old(self)@.second_pass,
            final(self)@ == old(self)@.clear_schedule(),
            final(self)@.inv(),
            old(self)@.wf() ==> final(self)@.wf(),
    {
        let mut entries: Vec<SecondPass> = Vec::new();
        entries.append(&mut self.second_pass);
        proof {
            assert(entries@ =~= old(self)@.second_pass);
            assert(self@.second_pass =~= Seq::<SecondPass>::empty());
            old(self)@.lemma_clear_schedule();
        }
        entries
    }
}

} // verus!
