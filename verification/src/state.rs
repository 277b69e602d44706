//! The mathematical model of the engine as the handle layer sees it.
//!
//! The engine owns a garbage-collected heap that the host cannot touch
//! directly. What the host can observe is captured here as plain data: which
//! instances are alive, which scopes are active, what every storage cell holds,
//! the pinned side records that weak registrations point back to, the
//! second-phase callbacks that are scheduled, and the finalizers that have run.
//!
//! Addresses and instance identities are indices into these tables. Index `0`
//! of the instance table and of the cell table is reserved, so that `0` plays
//! the role of the null address: it never names a live instance or a live cell.
use std::collections::hash_map::DefaultHasher;
use std::hash::Hasher;
use vstd::prelude::*;
use crate::record::Finalizer;
use crate::record::WeakData;

verus! {

/// The identity of an object on the engine's heap.
///
/// Objects may be moved by the collector; their identity does not change. Two
/// storage cells refer to the same object exactly if they hold equal identities.
#[derive(Clone, Copy, Debug, PartialEq, Eq, Structural)]
pub struct Object {
    pub id: usize,
}

impl Object {
    /// The bytes that stand for the object in a hash.
    pub open spec fn hash_bytes(self) -> Seq<u8> {
        vstd::bytes::spec_u64_to_le_bytes(self.id as u64)
    }

    /// Feeds the object into a hasher.
    pub fn hash(&self, state: &mut DefaultHasher)
        ensures
            final(state)@ == old(state)@.push(self.hash_bytes()),
    {
        let bytes = vstd::bytes::u64_to_le_bytes(self.id as u64);
        state.write(bytes.as_slice());
    }
}

/// What a storage cell of the engine holds.
#[derive(Clone, Copy, Debug, PartialEq, Eq, Structural)]
pub enum StorageCell {
    /// The cell has been released (or was never handed out).
    Released,
    /// A cell minted for a transient reference inside a scope.
    Transient { isolate: usize, object: Object, scope: usize },
    /// A cell registered for a persistent reference.
    Persistent { isolate: usize, object: Object },
    /// A cell registered for a weak reference; `parameter` is the address of the
    /// pinned side record that the first-phase callback receives.
    Weak { isolate: usize, object: Object, parameter: usize },
}

impl StorageCell {
    /// The instance that owns the cell (`0` for a released cell).
    pub open spec fn isolate(self) -> usize {
        match self {
            StorageCell::Released => 0,
            StorageCell::Transient { isolate, .. } => isolate,
            StorageCell::Persistent { isolate, .. } => isolate,
            StorageCell::Weak { isolate, .. } => isolate,
        }
    }

    /// The object the cell refers to.
    pub open spec fn object(self) -> Object {
        match self {
            StorageCell::Released => Object { id: 0 },
            StorageCell::Transient { object, .. } => object,
            StorageCell::Persistent { object, .. } => object,
            StorageCell::Weak { object, .. } => object,
        }
    }

    /// Whether the cell keeps its object alive.
    pub open spec fn is_strong(self) -> bool {
        self is Transient || self is Persistent
    }
}

/// One entry of the transient-scope table.
#[derive(Clone, Copy, Debug, PartialEq, Eq, Structural)]
pub struct ScopeState {
    pub isolate: usize,
    pub active: bool,
}

/// A second-phase callback that the engine has scheduled.
#[derive(Clone, Copy, Debug, PartialEq, Eq, Structural)]
pub struct SecondPass {
    pub isolate: usize,
    pub parameter: usize,
}

/// Everything the handle layer can observe of the engine.
pub struct EngineState {
    /// The most storage cells the engine will ever hand out.
    pub capacity: usize,
    /// Liveness by instance address.
    pub isolates: Seq<bool>,
    /// The transient scopes ever entered.
    pub scopes: Seq<ScopeState>,
    /// The storage cells by address.
    pub cells: Seq<StorageCell>,
    /// The pinned side records by address.
    pub records: Seq<WeakData>,
    /// The second-phase callbacks scheduled and not yet run, oldest first.
    pub second_pass: Seq<SecondPass>,
    /// The tokens of the finalizers that have run, oldest first.
    pub finalized: Seq<u64>,
}

impl EngineState {
    /// The state of a fresh engine.
    pub open spec fn initial(capacity: usize) -> EngineState {
        EngineState {
            capacity,
            isolates: seq![false],
            scopes: Seq::empty(),
            cells: seq![StorageCell::Released],
            records: Seq::empty(),
            second_pass: Seq::empty(),
            finalized: Seq::empty(),
        }
    }

    /// `isolate` names an instance that has been created and not disposed.
    pub open spec fn is_alive(self, isolate: usize) -> bool {
        isolate < self.isolates.len() && self.isolates[isolate as int]
    }

    /// `scope` is an active scope of the live instance `isolate`.
    pub open spec fn scope_live(self, isolate: usize, scope: usize) -> bool {
        &&& self.is_alive(isolate)
        &&& scope < self.scopes.len()
        &&& self.scopes[scope as int] == ScopeState { isolate, active: true }
    }

    /// The cell at `address` exists: it was handed out, has not been released,
    /// its instance is alive and, for a transient cell, its scope is active.
    pub open spec fn cell_live(self, address: usize) -> bool {
        &&& address < self.cells.len()
        &&& match self.cells[address as int] {
            StorageCell::Released => false,
            StorageCell::Transient { isolate, scope, .. } => {
                &&& self.is_alive(isolate)
                &&& scope < self.scopes.len()
                &&& self.scopes[scope as int].active
            },
            StorageCell::Persistent { isolate, .. } => self.is_alive(isolate),
            StorageCell::Weak { isolate, .. } => self.is_alive(isolate),
        }
    }

    /// The cell at `address` exists and belongs to `isolate`.
    pub open spec fn holds(self, isolate: usize, address: usize) -> bool {
        self.cell_live(address) && self.cells[address as int].isolate() == isolate
    }

    /// The object that the cell at `address` refers to.
    pub open spec fn object_at(self, address: usize) -> Object {
        self.cells[address as int].object()
    }

    /// The engine can hand out one more storage cell.
    pub open spec fn has_room(self) -> bool {
        self.cells.len() <= self.capacity && self.cells.len() < usize::MAX
    }

    /// Some existing transient or persistent cell keeps `object` alive.
    pub open spec fn reachable(self, object: Object) -> bool {
        exists|a: usize|
            self.cell_live(a) && (#[trigger] self.cells[a as int]).is_strong()
                && self.cells[a as int].object() == object
    }

    /// The cell at `address` is a weak cell of `isolate` whose target nothing
    /// keeps alive: the next collection cycle of `isolate` notifies it.
    pub open spec fn collectable(self, isolate: usize, address: usize) -> bool {
        &&& self.holds(isolate, address)
        &&& self.cells[address as int] is Weak
        &&& !self.reachable(self.object_at(address))
    }

    /// What a cell may hold, given the sizes of the tables.
    pub open spec fn cell_inv(self, cell: StorageCell) -> bool {
        match cell {
            StorageCell::Released => true,
            StorageCell::Transient { isolate, object, scope } => {
                &&& 0 < isolate < self.isolates.len()
                &&& 0 < object.id < self.cells.len()
                &&& scope < self.scopes.len()
                &&& self.scopes[scope as int].isolate == isolate
            },
            StorageCell::Persistent { isolate, object } => {
                &&& 0 < isolate < self.isolates.len()
                &&& 0 < object.id < self.cells.len()
            },
            StorageCell::Weak { isolate, object, parameter } => {
                &&& 0 < isolate < self.isolates.len()
                &&& 0 < object.id < self.cells.len()
                &&& parameter < self.records.len()
            },
        }
    }

    /// The structural invariant: the reserved entries are in place and every
    /// index stored in a table is in range. Every entry point of the engine
    /// keeps it.
    pub open spec fn inv(self) -> bool {
        &&& 1 <= self.isolates.len()
        &&& !self.isolates[0]
        &&& 1 <= self.cells.len() <= usize::MAX
        &&& self.cells[0] is Released
        &&& self.records.len() <= self.cells.len()
        &&& forall|s: int|
            0 <= s < self.scopes.len() ==> 0 < (#[trigger] self.scopes[s]).isolate
                < self.isolates.len()
        &&& forall|a: int| 0 <= a < self.cells.len() ==> self.cell_inv(#[trigger] self.cells[a])
        &&& forall|p: int|
            0 <= p < self.records.len() ==> ((#[trigger] self.records[p]).pointer matches Some(a)
                ==> 0 < a < self.cells.len())
        &&& forall|k: int|
            0 <= k < self.second_pass.len() ==> (#[trigger] self.second_pass[k]).parameter
                < self.records.len()
    }

    /// A side record whose address slot is set names a weak cell that was
    /// registered with this very record as its callback parameter.
    pub open spec fn records_name_their_cells(self) -> bool {
        forall|p: int|
            0 <= p < self.records.len() ==> ((#[trigger] self.records[p]).pointer matches Some(a)
                ==> self.cells[a as int] is Weak && self.cells[a as int]->parameter == p)
    }

    /// The side record of every weak cell of a live instance has its address
    /// slot set to that cell: a first-phase callback always finds the address.
    pub open spec fn cells_name_their_records(self) -> bool {
        forall|a: int|
            0 <= a < self.cells.len() && (#[trigger] self.cells[a]) is Weak && self.is_alive(
                self.cells[a].isolate(),
            ) ==> self.records[self.cells[a]->parameter as int].pointer == Some(a as usize)
    }

    /// The full invariant, which holds between any two operations of the handle
    /// layer: the structural invariant, every side record was pinned for a cell
    /// of its own, and weak cells and side records name each other.
    pub open spec fn wf(self) -> bool {
        &&& self.inv()
        &&& self.records.len() < self.cells.len()
        &&& self.records_name_their_cells()
        &&& self.cells_name_their_records()
    }

    /// The state after a new instance has been created.
    pub open spec fn create_isolate(self) -> EngineState {
        EngineState { isolates: self.isolates.push(true), ..self }
    }

    /// The state after `isolate` has been disposed.
    pub open spec fn dispose_isolate(self, isolate: usize) -> EngineState {
        EngineState { isolates: self.isolates.update(isolate as int, false), ..self }
    }

    /// The state after a scope of `isolate` has been entered.
    pub open spec fn enter_scope(self, isolate: usize) -> EngineState {
        EngineState { scopes: self.scopes.push(ScopeState { isolate, active: true }), ..self }
    }

    /// The state after `scope` has been left.
    pub open spec fn exit_scope(self, scope: usize) -> EngineState {
        EngineState {
            scopes: self.scopes.update(
                scope as int,
                ScopeState { isolate: self.scopes[scope as int].isolate, active: false },
            ),
            ..self
        }
    }

    /// The state after a new cell has been handed out. Its address is the
    /// number of cells before.
    pub open spec fn push_cell(self, cell: StorageCell) -> EngineState {
        EngineState { cells: self.cells.push(cell), ..self }
    }

    /// The state after a transient cell has been minted in `scope` for the
    /// object that the cell at `source` refers to.
    pub open spec fn mint(self, isolate: usize, scope: usize, source: usize) -> EngineState {
        self.push_cell(StorageCell::Transient { isolate, object: self.object_at(source), scope })
    }

    /// The state after a persistent cell of `isolate` has been registered for
    /// the object that the cell at `source` refers to.
    pub open spec fn register(self, isolate: usize, source: usize) -> EngineState {
        self.push_cell(StorageCell::Persistent { isolate, object: self.object_at(source) })
    }

    /// The state after the cell at `address` has been released.
    pub open spec fn release(self, address: usize) -> EngineState {
        EngineState { cells: self.cells.update(address as int, StorageCell::Released), ..self }
    }

    /// The state after a new side record has been pinned. Its address is the
    /// number of records before.
    pub open spec fn push_record(self, record: WeakData) -> EngineState {
        EngineState { records: self.records.push(record), ..self }
    }

    /// The state after the side record at `parameter` has been overwritten.
    pub open spec fn set_record(self, parameter: usize, record: WeakData) -> EngineState {
        EngineState { records: self.records.update(parameter as int, record), ..self }
    }

    /// The state after the address slot of a side record has been written.
    pub open spec fn set_pointer(self, parameter: usize, pointer: Option<usize>) -> EngineState {
        self.set_record(
            parameter,
            WeakData { pointer, finalizer: self.records[parameter as int].finalizer },
        )
    }

    /// The state after the finalizer slot of a side record has been written.
    pub open spec fn set_finalizer(
        self,
        parameter: usize,
        finalizer: Option<Finalizer>,
    ) -> EngineState {
        self.set_record(
            parameter,
            WeakData { pointer: self.records[parameter as int].pointer, finalizer },
        )
    }

    /// The state after a second-phase callback has been scheduled.
    pub open spec fn schedule(self, entry: SecondPass) -> EngineState {
        EngineState { second_pass: self.second_pass.push(entry), ..self }
    }

    /// The state after every scheduled second-phase callback has been taken
    /// off the schedule.
    pub open spec fn clear_schedule(self) -> EngineState {
        EngineState { second_pass: Seq::empty(), ..self }
    }

    /// The state after a finalizer with the given token has run.
    pub open spec fn log(self, token: u64) -> EngineState {
        EngineState { finalized: self.finalized.push(token), ..self }
    }

    /// The state after a weak cell of `isolate` for `object` has been
    /// registered together with a new side record that holds `finalizer`: the
    /// record is pinned at the next record address, the cell is handed out at
    /// the next cell address, and each names the other.
    pub open spec fn bind_weak(
        self,
        isolate: usize,
        object: Object,
        finalizer: Option<Finalizer>,
    ) -> EngineState {
        EngineState {
            cells: self.cells.push(
                StorageCell::Weak { isolate, object, parameter: self.records.len() as usize },
            ),
            records: self.records.push(
                WeakData { pointer: Some(self.cells.len() as usize), finalizer },
            ),
            ..self
        }
    }

    /// The state after a weak cell of `isolate` and its side record have been
    /// registered for the object that the cell at `source` refers to.
    pub open spec fn register_weak(
        self,
        isolate: usize,
        source: usize,
        finalizer: Option<Finalizer>,
    ) -> EngineState {
        self.bind_weak(isolate, self.object_at(source), finalizer)
    }

    /// The state after the first-phase callback has run for the side record at
    /// `parameter`: the address is taken out of the record and the cell it
    /// named is released. The finalizer stays in the record.
    pub open spec fn first_pass(self, parameter: usize) -> EngineState {
        match self.records[parameter as int].pointer {
            Some(address) => self.set_pointer(parameter, None).release(address),
            None => self,
        }
    }

    /// The state after the second-phase callback has run for the side record
    /// at `parameter`: the finalizer, if the record still holds one, is taken
    /// out and run.
    pub open spec fn second_pass(self, parameter: usize) -> EngineState {
        match self.records[parameter as int].finalizer {
            Some(finalizer) => self.set_finalizer(parameter, None).log(finalizer.token),
            None => self,
        }
    }

    /// The state after the side record at `parameter` has been given up by its
    /// owner: both slots are empty, and the finalizer will never run.
    pub open spec fn unpin(self, parameter: usize) -> EngineState {
        self.set_record(parameter, WeakData { pointer: None, finalizer: None })
    }
}

} // verus!
