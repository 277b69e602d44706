//! Every transition of the engine's state keeps the invariants that it is said
//! to keep.
use vstd::prelude::*;
use crate::record::Finalizer;
use crate::record::WeakData;
use crate::state::EngineState;
use crate::state::Object;
use crate::state::SecondPass;
use crate::state::StorageCell;

verus! {

impl EngineState {
    /// The structural invariant carries over from `self` to a state `t` in
    /// which the tables have only grown, no cell has changed but by being
    /// released, and whatever is new is in range.
    proof fn lemma_inv_step(self, t: EngineState)
        requires
            self.inv(),
            self.isolates.len() <= t.isolates.len(),
            !t.isolates[0],
            self.scopes.len() <= t.scopes.len(),
            forall|i: int|
                0 <= i < self.scopes.len() ==> (#[trigger] t.scopes[i]).isolate
                    == self.scopes[i].isolate,
            forall|i: int|
                self.scopes.len() <= i < t.scopes.len() ==> 0 < (#[trigger] t.scopes[i]).isolate
                    < t.isolates.len(),
            self.cells.len() <= t.cells.len() <= usize::MAX,
            forall|a: int|
                0 <= a < self.cells.len() ==> (#[trigger] t.cells[a]) == self.cells[a]
                    || t.cells[a] is Released,
            forall|a: int|
                self.cells.len() <= a < t.cells.len() ==> t.cell_inv(#[trigger] t.cells[a]),
            self.records.len() <= t.records.len() <= t.cells.len(),
            forall|p: int|
                0 <= p < t.records.len() ==> ((#[trigger] t.records[p]).pointer matches Some(a)
                    ==> 0 < a < t.cells.len()),
            forall|k: int|
                0 <= k < t.second_pass.len() ==> (#[trigger] t.second_pass[k]).parameter
                    < t.records.len(),
        ensures
            t.inv(),
    {
        assert forall|i: int| 0 <= i < t.scopes.len() implies 0 < (#[trigger] t.scopes[i]).isolate
            < t.isolates.len() by {
            if i < self.scopes.len() {
                assert(0 < self.scopes[i].isolate < self.isolates.len());
            }
        }
        assert forall|a: int| 0 <= a < t.cells.len() implies t.cell_inv(#[trigger] t.cells[a]) by {
            if a < self.cells.len() {
                assert(self.cell_inv(self.cells[a]));
                if let StorageCell::Transient { isolate, object, scope } = self.cells[a] {
                    assert(t.scopes[scope as int].isolate == self.scopes[scope as int].isolate);
                }
            }
        }
    }

    /// Weak cells and side records name each other in a state `t` in which
    /// every address slot that is set was set to the same, unchanged cell in
    /// `self`, and every weak cell of a live instance was the same weak cell
    /// of a live instance in `self`, with its side record's address slot as
    /// it was.
    proof fn lemma_links_step(self, t: EngineState)
        requires
            self.wf(),
            t.inv(),
            t.records.len() < t.cells.len(),
            forall|p: int|
                0 <= p < t.records.len() ==> ((#[trigger] t.records[p]).pointer matches Some(a)
                    ==> p < self.records.len() && self.records[p].pointer == Some(a)
                    && t.cells[a as int] == self.cells[a as int]),
            forall|a: int|
                0 <= a < t.cells.len() && (#[trigger] t.cells[a]) is Weak && t.is_alive(
                    t.cells[a].isolate(),
                ) ==> a < self.cells.len() && self.cells[a] == t.cells[a] && self.is_alive(
                    self.cells[a].isolate(),
                ) && t.records[t.cells[a]->parameter as int].pointer
                    == self.records[t.cells[a]->parameter as int].pointer,
        ensures
            t.wf(),
    {
        assert forall|p: int| 0 <= p < t.records.len() implies ((#[trigger] t.records[p]).pointer matches Some(
            a,
        ) ==> t.cells[a as int] is Weak && t.cells[a as int]->parameter == p) by {
            if let Some(a) = t.records[p].pointer {
                assert(self.records[p].pointer == Some(a));
            }
        }
    }

    /// Creating an instance keeps both invariants.
    pub proof fn lemma_create_isolate(self)
        requires
            self.inv(),
        ensures
            self.create_isolate().inv(),
            self.wf() ==> self.create_isolate().wf(),
    {
        let t = self.create_isolate();
        self.lemma_inv_step(t);
        if self.wf() {
            assert forall|a: int|
                0 <= a < t.cells.len() && (#[trigger] t.cells[a]) is Weak && t.is_alive(
                    t.cells[a].isolate(),
                ) implies self.is_alive(self.cells[a].isolate()) by {
                assert(self.cell_inv(self.cells[a]));
            }
            self.lemma_links_step(t);
        }
    }

    /// Disposing of an instance keeps both invariants.
    pub proof fn lemma_dispose_isolate(self, isolate: usize)
        requires
            self.inv(),
            isolate < self.isolates.len(),
        ensures
            self.dispose_isolate(isolate).inv(),
            self.wf() ==> self.dispose_isolate(isolate).wf(),
    {
        let t = self.dispose_isolate(isolate);
        self.lemma_inv_step(t);
        if self.wf() {
            self.lemma_links_step(t);
        }
    }

    /// Entering a scope keeps both invariants.
    pub proof fn lemma_enter_scope(self, isolate: usize)
        requires
            self.inv(),
            0 < isolate < self.isolates.len(),
        ensures
            self.enter_scope(isolate).inv(),
            self.wf() ==> self.enter_scope(isolate).wf(),
    {
        let t = self.enter_scope(isolate);
        self.lemma_inv_step(t);
        if self.wf() {
            self.lemma_links_step(t);
        }
    }

    /// Leaving a scope keeps both invariants.
    pub proof fn lemma_exit_scope(self, scope: usize)
        requires
            self.inv(),
            scope < self.scopes.len(),
        ensures
            self.exit_scope(scope).inv(),
            self.wf() ==> self.exit_scope(scope).wf(),
    {
        let t = self.exit_scope(scope);
        self.lemma_inv_step(t);
        if self.wf() {
            self.lemma_links_step(t);
        }
    }

    /// Handing out a cell keeps the structural invariant, and the full one
    /// unless the cell is weak.
    pub proof fn lemma_push_cell(self, cell: StorageCell)
        requires
            self.inv(),
            self.cells.len() < usize::MAX,
            self.push_cell(cell).cell_inv(cell),
        ensures
            self.push_cell(cell).inv(),
            self.wf() && !(cell is Weak) ==> self.push_cell(cell).wf(),
    {
        let t = self.push_cell(cell);
        self.lemma_inv_step(t);
        if self.wf() && !(cell is Weak) {
            self.lemma_links_step(t);
        }
    }

    /// Minting a transient cell from a cell of the same instance keeps both
    /// invariants.
    pub proof fn lemma_mint(self, isolate: usize, scope: usize, source: usize)
        requires
            self.inv(),
            self.cells.len() < usize::MAX,
            self.scope_live(isolate, scope),
            self.holds(isolate, source),
        ensures
            self.mint(isolate, scope, source).inv(),
            self.wf() ==> self.mint(isolate, scope, source).wf(),
    {
        assert(self.cell_inv(self.cells[source as int]));
        self.lemma_push_cell(
            StorageCell::Transient { isolate, object: self.object_at(source), scope },
        );
    }

    /// Registering a persistent cell from a cell of the same instance keeps
    /// both invariants.
    pub proof fn lemma_register(self, isolate: usize, source: usize)
        requires
            self.inv(),
            self.cells.len() < usize::MAX,
            self.holds(isolate, source),
        ensures
            self.register(isolate, source).inv(),
            self.wf() ==> self.register(isolate, source).wf(),
    {
        assert(self.cell_inv(self.cells[source as int]));
        self.lemma_push_cell(StorageCell::Persistent { isolate, object: self.object_at(source) });
    }

    /// Releasing a cell keeps the structural invariant, and the full one
    /// unless the cell is weak.
    pub proof fn lemma_release(self, address: usize)
        requires
            self.inv(),
            address < self.cells.len(),
        ensures
            self.release(address).inv(),
            self.wf() && !(self.cells[address as int] is Weak) ==> self.release(address).wf(),
    {
        let t = self.release(address);
        self.lemma_inv_step(t);
        if self.wf() && !(self.cells[address as int] is Weak) {
            assert forall|p: int| 0 <= p < t.records.len() implies ((#[trigger] t.records[p]).pointer matches Some(
                a,
            ) ==> t.cells[a as int] == self.cells[a as int]) by {
                if let Some(a) = self.records[p].pointer {
                    assert(self.cells[a as int] is Weak);
                }
            }
            self.lemma_links_step(t);
        }
    }

    /// Pinning a side record with its address slot unset keeps the
    /// structural invariant.
    pub proof fn lemma_push_record(self, finalizer: Option<Finalizer>)
        requires
            self.inv(),
            self.records.len() < self.cells.len(),
        ensures
            self.push_record(WeakData { pointer: None, finalizer }).inv(),
    {
        let t = self.push_record(WeakData { pointer: None, finalizer });
        assert forall|p: int| 0 <= p < t.records.len() implies ((#[trigger] t.records[p]).pointer matches Some(
            a,
        ) ==> 0 < a < t.cells.len()) by {
            if p < self.records.len() {
                assert(t.records[p] == self.records[p]);
            }
        }
        assert forall|k: int| 0 <= k < t.second_pass.len() implies (#[trigger] t.second_pass[k]).parameter
            < t.records.len() by {
            assert(self.second_pass[k].parameter < self.records.len());
        }
        self.lemma_inv_step(t);
    }

    /// Overwriting a side record keeps the structural invariant if the
    /// address it holds is that of a cell, and the full one if its address
    /// slot is as before.
    pub proof fn lemma_set_record(self, parameter: usize, record: WeakData)
        requires
            self.inv(),
            parameter < self.records.len(),
            record.pointer matches Some(a) ==> 0 < a < self.cells.len(),
        ensures
            self.set_record(parameter, record).inv(),
            self.wf() && record.pointer == self.records[parameter as int].pointer
                ==> self.set_record(parameter, record).wf(),
    {
        let t = self.set_record(parameter, record);
        assert forall|p: int| 0 <= p < t.records.len() implies ((#[trigger] t.records[p]).pointer matches Some(
            a,
        ) ==> 0 < a < t.cells.len()) by {
            if p != parameter {
                assert(t.records[p] == self.records[p]);
            }
        }
        self.lemma_inv_step(t);
        if self.wf() && record.pointer == self.records[parameter as int].pointer {
            assert forall|p: int| 0 <= p < t.records.len() implies ((#[trigger] t.records[p]).pointer matches Some(
                a,
            ) ==> self.records[p].pointer == Some(a)) by {
                if p != parameter {
                    assert(t.records[p] == self.records[p]);
                }
            }
            assert forall|a: int|
                0 <= a < t.cells.len() && (#[trigger] t.cells[a]) is Weak implies t.records[t.cells[a]->parameter as int].pointer
                == self.records[t.cells[a]->parameter as int].pointer by {
                assert(self.cell_inv(self.cells[a]));
            }
            self.lemma_links_step(t);
        }
    }

    /// Scheduling a second-phase callback for a side record keeps both
    /// invariants.
    pub proof fn lemma_schedule(self, entry: SecondPass)
        requires
            self.inv(),
            entry.parameter < self.records.len(),
        ensures
            self.schedule(entry).inv(),
            self.wf() ==> self.schedule(entry).wf(),
    {
        let t = self.schedule(entry);
        assert forall|k: int| 0 <= k < t.second_pass.len() implies (#[trigger] t.second_pass[k]).parameter
            < t.records.len() by {
            if k < self.second_pass.len() {
                assert(t.second_pass[k] == self.second_pass[k]);
            }
        }
        self.lemma_inv_step(t);
        if self.wf() {
            self.lemma_links_step(t);
        }
    }

    /// Emptying the schedule keeps both invariants.
    pub proof fn lemma_clear_schedule(self)
        requires
            self.inv(),
        ensures
            self.clear_schedule().inv(),
            self.wf() ==> self.clear_schedule().wf(),
    {
        let t = self.clear_schedule();
        self.lemma_inv_step(t);
        if self.wf() {
            self.lemma_links_step(t);
        }
    }

    /// Running a finalizer keeps both invariants.
    pub proof fn lemma_log(self, token: u64)
        requires
            self.inv(),
        ensures
            self.log(token).inv(),
            self.wf() ==> self.log(token).wf(),
    {
        let t = self.log(token);
        self.lemma_inv_step(t);
        if self.wf() {
            self.lemma_links_step(t);
        }
    }

    /// Registering a weak cell together with a fresh side record keeps the
    /// full invariant. It comes to the same as pinning the record, registering
    /// the cell with the record as its parameter, and storing the address of
    /// the cell in the record.
    proof fn lemma_bind_weak(
        self,
        isolate: usize,
        object: Object,
        finalizer: Option<Finalizer>,
    )
        requires
            self.wf(),
            0 < isolate < self.isolates.len(),
            0 < object.id < self.cells.len(),
            self.cells.len() < usize::MAX,
        ensures
            self.bind_weak(isolate, object, finalizer).wf(),
            self.bind_weak(isolate, object, finalizer) == self.push_record(
                WeakData { pointer: None, finalizer },
            ).push_cell(
                StorageCell::Weak { isolate, object, parameter: self.records.len() as usize },
            ).set_pointer(self.records.len() as usize, Some(self.cells.len() as usize)),
    {
        let t = self.bind_weak(isolate, object, finalizer);
        let u = self.push_record(WeakData { pointer: None, finalizer }).push_cell(
            StorageCell::Weak { isolate, object, parameter: self.records.len() as usize },
        ).set_pointer(self.records.len() as usize, Some(self.cells.len() as usize));
        assert(t.records =~= u.records);
        assert(t.cells =~= u.cells);
        assert forall|p: int| 0 <= p < t.records.len() implies ((#[trigger] t.records[p]).pointer matches Some(
            a,
        ) ==> 0 < a < t.cells.len() && t.cells[a as int] is Weak && t.cells[a as int]->parameter
            == p) by {
            if p < self.records.len() {
                assert(self.records[p].pointer matches Some(a) ==> 0 < a < self.cells.len()
                    && self.cells[a as int] is Weak && self.cells[a as int]->parameter == p);
            }
        }
        assert forall|k: int| 0 <= k < t.second_pass.len() implies (#[trigger] t.second_pass[k]).parameter
            < t.records.len() by {
            assert(self.second_pass[k].parameter < self.records.len());
        }
        self.lemma_inv_step(t);
        assert forall|a: int|
            0 <= a < t.cells.len() && (#[trigger] t.cells[a]) is Weak && t.is_alive(
                t.cells[a].isolate(),
            ) implies t.records[t.cells[a]->parameter as int].pointer == Some(a as usize) by {
            if a < self.cells.len() {
                assert(self.cell_inv(self.cells[a]));
                assert(self.records[self.cells[a]->parameter as int].pointer == Some(a as usize));
            }
        }
    }

    /// Registering a weak cell from a cell of the same instance keeps the
    /// full invariant, and comes to the same as the three steps in which it is
    /// done.
    pub proof fn lemma_register_weak(
        self,
        isolate: usize,
        source: usize,
        finalizer: Option<Finalizer>,
    )
        requires
            self.wf(),
            self.cells.len() < usize::MAX,
            self.holds(isolate, source),
        ensures
            self.register_weak(isolate, source, finalizer).wf(),
            self.register_weak(isolate, source, finalizer) == self.push_record(
                WeakData { pointer: None, finalizer },
            ).push_cell(
                StorageCell::Weak {
                    isolate,
                    object: self.object_at(source),
                    parameter: self.records.len() as usize,
                },
            ).set_pointer(self.records.len() as usize, Some(self.cells.len() as usize)),
    {
        assert(self.cell_inv(self.cells[source as int]));
        self.lemma_bind_weak(isolate, self.object_at(source), finalizer);
    }

    /// The first-phase callback keeps the full invariant.
    pub proof fn lemma_first_pass(self, parameter: usize)
        requires
            self.wf(),
            parameter < self.records.len(),
        ensures
            self.first_pass(parameter).wf(),
    {
        let t = self.first_pass(parameter);
        if let Some(address) = self.records[parameter as int].pointer {
            assert(self.cells[address as int] is Weak);
            let unbound = self.set_pointer(parameter, None);
            self.lemma_set_record(
                parameter,
                WeakData { pointer: None, finalizer: self.records[parameter as int].finalizer },
            );
            unbound.lemma_release(address);
            assert forall|p: int| 0 <= p < t.records.len() implies ((#[trigger] t.records[p]).pointer matches Some(
                a,
            ) ==> t.cells[a as int] is Weak && t.cells[a as int]->parameter == p) by {
                assert(self.records[p].pointer matches Some(a) ==> 0 < a < self.cells.len()
                    && self.cells[a as int] is Weak && self.cells[a as int]->parameter == p);
            }
            assert forall|a: int|
                0 <= a < t.cells.len() && (#[trigger] t.cells[a]) is Weak && t.is_alive(
                    t.cells[a].isolate(),
                ) implies t.records[t.cells[a]->parameter as int].pointer == Some(a as usize) by {
                assert(self.cell_inv(self.cells[a]));
                assert(self.records[self.cells[a]->parameter as int].pointer == Some(a as usize));
            }
        }
    }

    /// The second-phase callback keeps the full invariant.
    pub proof fn lemma_second_pass(self, parameter: usize)
        requires
            self.wf(),
            parameter < self.records.len(),
        ensures
            self.second_pass(parameter).wf(),
    {
        if let Some(finalizer) = self.records[parameter as int].finalizer {
            assert(self.records[parameter as int].pointer matches Some(a) ==> 0 < a
                < self.cells.len());
            self.lemma_set_record(
                parameter,
                WeakData { pointer: self.records[parameter as int].pointer, finalizer: None },
            );
            self.set_finalizer(parameter, None).lemma_log(finalizer.token);
        }
    }

    /// Giving up a side record keeps the full invariant, provided that the
    /// cell it named, if its instance is alive, is released with it.
    pub proof fn lemma_unpin(self, parameter: usize, release: bool)
        requires
            self.wf(),
            parameter < self.records.len(),
            self.records[parameter as int].pointer matches Some(address) ==> (release
                || !self.is_alive(self.cells[address as int].isolate())),
        ensures
            release && self.records[parameter as int].pointer is Some ==> self.release(
                self.records[parameter as int].pointer->0,
            ).unpin(parameter).wf(),
            !release || self.records[parameter as int].pointer is None ==> self.unpin(
                parameter,
            ).wf(),
    {
        let bound = self.records[parameter as int].pointer is Some;
        let t = if release && bound {
            self.release(self.records[parameter as int].pointer->0).unpin(parameter)
        } else {
            self.unpin(parameter)
        };
        assert forall|p: int| 0 <= p < t.records.len() implies ((#[trigger] t.records[p]).pointer matches Some(
            a,
        ) ==> 0 < a < t.cells.len() && t.cells[a as int] is Weak && t.cells[a as int]->parameter
            == p) by {
            assert(self.records[p].pointer matches Some(a) ==> 0 < a < self.cells.len()
                && self.cells[a as int] is Weak && self.cells[a as int]->parameter == p);
        }
        self.lemma_inv_step(t);
        assert forall|a: int|
            0 <= a < t.cells.len() && (#[trigger] t.cells[a]) is Weak && t.is_alive(
                t.cells[a].isolate(),
            ) implies t.records[t.cells[a]->parameter as int].pointer == Some(a as usize) by {
            assert(self.cell_inv(self.cells[a]));
            assert(self.records[self.cells[a]->parameter as int].pointer == Some(a as usize));
        }
    }
}

} // verus!
