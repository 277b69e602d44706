//! The engine's side of weak references: a collection cycle.
//!
//! A cycle of an instance notifies every weak cell of that instance whose
//! target no transient or persistent cell keeps alive. It runs the first-phase
//! callbacks first, in the order of the cells' addresses, and the second-phase
//! callbacks that were asked for afterwards, in the order in which they were
//! scheduled. Host code may run between the two phases.
use vstd::prelude::*;
use crate::engine::Engine;
use crate::engine::Isolate;
use crate::record::WeakData;
use crate::state::EngineState;
use crate::state::Object;
use crate::state::SecondPass;
use crate::state::StorageCell;
use crate::weak::Weak;
use crate::weak::WeakCallbackInfo;

verus! {

impl EngineState {
    /// The state after the first phase of a cycle of `isolate` has dealt with
    /// the cells below address `n`: for each of them that was collectable when
    /// the cycle began, in the order of their addresses, the first-phase
    /// callback has run, and the second-phase callback has been scheduled if
    /// the side record held a finalizer.
    pub open spec fn collect_below(self, isolate: usize, n: nat) -> EngineState
        decreases n,
    {
        if n == 0 {
            self
        } else {
            let before = self.collect_below(isolate, (n - 1) as nat);
            let address = (n - 1) as usize;
            if self.collectable(isolate, address) {
                let parameter = self.cells[address as int]->parameter;
                let after = before.first_pass(parameter);
                if self.records[parameter as int].finalizer is Some {
                    after.schedule(SecondPass { isolate, parameter })
                } else {
                    after
                }
            } else {
                before
            }
        }
    }

    /// The state after the first phase of a cycle of `isolate`.
    pub open spec fn collect_first_pass(self, isolate: usize) -> EngineState {
        self.collect_below(isolate, self.cells.len())
    }

    /// The state after the second-phase callbacks of `entries` have run, in
    /// order. The engine fires no callback for an instance that has been
    /// disposed.
    pub open spec fn run_second_pass(self, entries: Seq<SecondPass>) -> EngineState
        decreases entries.len(),
    {
        if entries.len() == 0 {
            self
        } else {
            let before = self.run_second_pass(entries.drop_last());
            if before.is_alive(entries.last().isolate) {
                before.second_pass(entries.last().parameter)
            } else {
                before
            }
        }
    }

    /// The state after the second phase: the schedule is empty, and every
    /// callback that was on it has run.
    pub open spec fn collect_second_pass(self) -> EngineState {
        self.clear_schedule().run_second_pass(self.second_pass)
    }

    /// The state after a full collection cycle of `isolate`.
    pub open spec fn collect_garbage(self, isolate: usize) -> EngineState {
        self.collect_first_pass(isolate).collect_second_pass()
    }

    /// What the first phase of a cycle leaves in place, and what it changes.
    ///
    /// The instances, the scopes and the log are as before. A cell is
    /// released if it was collectable and is as before otherwise. The side
    /// record of a collectable cell loses its address and keeps its finalizer;
    /// every other record is as before. Whether an object is reachable does
    /// not change.
    pub proof fn lemma_collect_below(self, isolate: usize, n: nat)
        requires
            self.wf(),
            n <= self.cells.len(),
        ensures
            self.collect_below(isolate, n).wf(),
            self.collect_below(isolate, n).capacity == self.capacity,
            self.collect_below(isolate, n).isolates == self.isolates,
            self.collect_below(isolate, n).scopes == self.scopes,
            self.collect_below(isolate, n).finalized == self.finalized,
            self.collect_below(isolate, n).cells.len() == self.cells.len(),
            self.collect_below(isolate, n).records.len() == self.records.len(),
            forall|a: int|
                0 <= a < self.cells.len() ==> #[trigger] self.collect_below(isolate, n).cells[a]
                    == (if a < n && self.collectable(isolate, a as usize) {
                    StorageCell::Released
                } else {
                    self.cells[a]
                }),
            forall|p: int|
                0 <= p < self.records.len() ==> (#[trigger] self.collect_below(
                    isolate,
                    n,
                ).records[p]).finalizer == self.records[p].finalizer,
            forall|p: int|
                0 <= p < self.records.len() ==> (#[trigger] self.collect_below(
                    isolate,
                    n,
                ).records[p]).pointer == (if self.records[p].pointer matches Some(a) && a < n
                    && self.collectable(isolate, a) {
                    None
                } else {
                    self.records[p].pointer
                }),
            self.second_pass.len() <= self.collect_below(isolate, n).second_pass.len(),
            forall|k: int|
                0 <= k < self.second_pass.len() ==> #[trigger] self.collect_below(
                    isolate,
                    n,
                ).second_pass[k] == self.second_pass[k],
        decreases n,
    {
        if n > 0 {
            let before = self.collect_below(isolate, (n - 1) as nat);
            self.lemma_collect_below(isolate, (n - 1) as nat);
            let address = (n - 1) as usize;
            if self.collectable(isolate, address) {
                let parameter = self.cells[address as int]->parameter;
                assert(self.cell_inv(self.cells[address as int]));
                assert(before.cells[address as int] == self.cells[address as int]);
                assert(self.records[parameter as int].pointer == Some(address));
                assert(before.records[parameter as int].pointer == Some(address));
                before.lemma_first_pass(parameter);
                let after = before.first_pass(parameter);
                let t = self.collect_below(isolate, n);
                assert(t.wf()) by {
                    if self.records[parameter as int].finalizer is Some {
                        assert forall|a: int| 0 <= a < t.cells.len() implies t.cell_inv(
                            #[trigger] t.cells[a],
                        ) by {
                            assert(after.cell_inv(after.cells[a]));
                        }
                        assert forall|k: int| 0 <= k < t.second_pass.len() implies (#[trigger] t.second_pass[k]).parameter
                            < t.records.len() by {
                            if k < after.second_pass.len() {
                                assert(after.second_pass[k].parameter < after.records.len());
                            }
                        }
                    }
                }
                assert forall|p: int| 0 <= p < self.records.len() implies (#[trigger] t.records[p]).pointer
                    == (if self.records[p].pointer matches Some(a) && a < n && self.collectable(
                    isolate,
                    a,
                ) {
                    None
                } else {
                    self.records[p].pointer
                }) by {
                    if p != parameter {
                        assert(t.records[p] == before.records[p]);
                        if self.records[p].pointer == Some(address) {
                            assert(self.cells[address as int]->parameter == p);
                        }
                    }
                }
            }
        }
    }

    /// The first phase of a cycle changes nothing that reachability depends
    /// on.
    pub proof fn lemma_collect_below_reachable(self, isolate: usize, n: nat, object: Object)
        requires
            self.wf(),
            n <= self.cells.len(),
        ensures
            self.collect_below(isolate, n).reachable(object) == self.reachable(object),
    {
        let t = self.collect_below(isolate, n);
        self.lemma_collect_below(isolate, n);
        if self.reachable(object) {
            let a = choose|a: usize|
                self.cell_live(a) && (#[trigger] self.cells[a as int]).is_strong()
                    && self.cells[a as int].object() == object;
            assert(t.cells[a as int] == self.cells[a as int]);
            assert(t.cell_live(a) && t.cells[a as int].is_strong() && t.cells[a as int].object()
                == object);
        }
        if t.reachable(object) {
            let a = choose|a: usize|
                t.cell_live(a) && (#[trigger] t.cells[a as int]).is_strong()
                    && t.cells[a as int].object() == object;
            assert(t.cells[a as int] == self.cells[a as int]);
            assert(self.cell_live(a) && self.cells[a as int].is_strong()
                && self.cells[a as int].object() == object);
        }
    }

    /// Running second-phase callbacks keeps the full invariant and touches
    /// neither the instances, the scopes, the cells nor the schedule.
    pub proof fn lemma_run_second_pass(self, entries: Seq<SecondPass>)
        requires
            self.wf(),
            forall|k: int| 0 <= k < entries.len() ==> (#[trigger] entries[k]).parameter
                < self.records.len(),
        ensures
            self.run_second_pass(entries).wf(),
            self.run_second_pass(entries).capacity == self.capacity,
            self.run_second_pass(entries).isolates == self.isolates,
            self.run_second_pass(entries).scopes == self.scopes,
            self.run_second_pass(entries).cells == self.cells,
            self.run_second_pass(entries).second_pass == self.second_pass,
            self.run_second_pass(entries).records.len() == self.records.len(),
            forall|p: int|
                0 <= p < self.records.len() ==> (#[trigger] self.run_second_pass(
                    entries,
                ).records[p]).pointer == self.records[p].pointer,
        decreases entries.len(),
    {
        if entries.len() > 0 {
            let before = self.run_second_pass(entries.drop_last());
            assert forall|k: int| 0 <= k < entries.drop_last().len() implies (#[trigger] entries.drop_last()[k]).parameter
                < self.records.len() by {
                assert(entries.drop_last()[k] == entries[k]);
            }
            self.lemma_run_second_pass(entries.drop_last());
            assert(entries.last() == entries[entries.len() - 1]);
            if before.is_alive(entries.last().isolate) {
                before.lemma_second_pass(entries.last().parameter);
            }
        }
    }

    /// The second phase of a cycle keeps the full invariant, empties the
    /// schedule, and touches neither the instances, the scopes, the cells nor
    /// the address slots of the side records.
    pub proof fn lemma_collect_second_pass(self)
        requires
            self.wf(),
        ensures
            self.collect_second_pass().wf(),
            self.collect_second_pass().capacity == self.capacity,
            self.collect_second_pass().isolates == self.isolates,
            self.collect_second_pass().scopes == self.scopes,
            self.collect_second_pass().cells == self.cells,
            self.collect_second_pass().second_pass.len() == 0,
            self.collect_second_pass().records.len() == self.records.len(),
            forall|p: int|
                0 <= p < self.records.len() ==> (#[trigger] self.collect_second_pass().records[p]).pointer
                    == self.records[p].pointer,
    {
        self.lemma_clear_schedule();
        self.clear_schedule().lemma_run_second_pass(self.second_pass);
    }

    /// The second-phase callbacks that the first phase of a cycle of
    /// `isolate` schedules for the cells below address `n`: one for each
    /// collectable cell whose side record holds a finalizer, in the order of
    /// the cells' addresses.
    pub open spec fn scheduled_below(self, isolate: usize, n: nat) -> Seq<SecondPass>
        decreases n,
    {
        if n == 0 {
            Seq::empty()
        } else {
            let before = self.scheduled_below(isolate, (n - 1) as nat);
            let address = (n - 1) as usize;
            let parameter = self.cells[address as int]->parameter;
            if self.collectable(isolate, address) && self.records[parameter as int].finalizer
                is Some {
                before.push(SecondPass { isolate, parameter })
            } else {
                before
            }
        }
    }

    /// The tokens of the finalizers that a cycle of `isolate` runs for the
    /// cells below address `n`: one for each collectable cell whose side
    /// record holds a finalizer, in the order of the cells' addresses.
    pub open spec fn finalized_below(self, isolate: usize, n: nat) -> Seq<u64>
        decreases n,
    {
        if n == 0 {
            Seq::empty()
        } else {
            let before = self.finalized_below(isolate, (n - 1) as nat);
            let address = (n - 1) as usize;
            let parameter = self.cells[address as int]->parameter;
            if self.collectable(isolate, address) && self.records[parameter as int].finalizer
                is Some {
                before.push(self.records[parameter as int].finalizer->0.token)
            } else {
                before
            }
        }
    }

    /// The side record at `parameter` is the one of a cell below address `n`
    /// that a cycle of `isolate` collects.
    pub open spec fn collected_below(self, isolate: usize, n: nat, parameter: int) -> bool {
        self.records[parameter].pointer matches Some(address) && address < n && self.collectable(
            isolate,
            address,
        )
    }

    /// The first phase of a cycle adds to the schedule what
    /// `scheduled_below` says.
    pub proof fn lemma_scheduled_below(self, isolate: usize, n: nat)
        requires
            self.wf(),
            n <= self.cells.len(),
        ensures
            self.collect_below(isolate, n).second_pass == self.second_pass + self.scheduled_below(
                isolate,
                n,
            ),
            forall|k: int|
                0 <= k < self.scheduled_below(isolate, n).len() ==> (#[trigger] self.scheduled_below(
                    isolate,
                    n,
                )[k]).parameter < self.records.len(),
        decreases n,
    {
        if n == 0 {
            assert(self.second_pass + Seq::<SecondPass>::empty() =~= self.second_pass);
        } else {
            self.lemma_scheduled_below(isolate, (n - 1) as nat);
            let address = (n - 1) as usize;
            let parameter = self.cells[address as int]->parameter;
            let before = self.scheduled_below(isolate, (n - 1) as nat);
            if self.collectable(isolate, address) {
                assert(self.cell_inv(self.cells[address as int]));
                if self.records[parameter as int].finalizer is Some {
                    let entry = SecondPass { isolate, parameter };
                    assert(self.second_pass + before.push(entry) =~= (self.second_pass
                        + before).push(entry));
                }
            }
        }
    }

    /// Running the second-phase callbacks that the first phase of a cycle
    /// has scheduled for the cells below address `n` runs the finalizers that
    /// `finalized_below` says, and empties the finalizer slots of the side
    /// records of the collected cells.
    pub proof fn lemma_second_pass_below(self, isolate: usize, n: nat)
        requires
            self.wf(),
            n <= self.cells.len(),
        ensures
            ({
                let first = self.collect_first_pass(isolate).clear_schedule();
                let second = first.run_second_pass(self.scheduled_below(isolate, n));
                &&& second.wf()
                &&& second.capacity == self.capacity
                &&& second.isolates == self.isolates
                &&& second.scopes == self.scopes
                &&& second.cells == first.cells
                &&& second.second_pass == first.second_pass
                &&& second.records.len() == self.records.len()
                &&& second.finalized == self.finalized + self.finalized_below(isolate, n)
                &&& forall|p: int|
                    0 <= p < self.records.len() ==> (#[trigger] second.records[p]).pointer
                        == first.records[p].pointer
                &&& forall|p: int|
                    0 <= p < self.records.len() ==> (#[trigger] second.records[p]).finalizer == (
                    if self.collected_below(isolate, n, p) {
                        None
                    } else {
                        self.records[p].finalizer
                    })
            }),
        decreases n,
    {
        let full = self.collect_first_pass(isolate);
        let first = full.clear_schedule();
        self.lemma_collect_below(isolate, self.cells.len());
        assert(first.wf()) by {
            assert forall|a: int| 0 <= a < first.cells.len() implies first.cell_inv(
                #[trigger] first.cells[a],
            ) by {
                assert(full.cell_inv(full.cells[a]));
            }
        }
        self.lemma_scheduled_below(isolate, n);
        first.lemma_run_second_pass(self.scheduled_below(isolate, n));
        if n == 0 {
            assert(self.finalized + Seq::<u64>::empty() =~= self.finalized);
        } else {
            self.lemma_second_pass_below(isolate, (n - 1) as nat);
            self.lemma_scheduled_below(isolate, (n - 1) as nat);
            let entries = self.scheduled_below(isolate, (n - 1) as nat);
            let before = first.run_second_pass(entries);
            first.lemma_run_second_pass(entries);
            let address = (n - 1) as usize;
            let parameter = self.cells[address as int]->parameter;
            let second = first.run_second_pass(self.scheduled_below(isolate, n));
            if self.collectable(isolate, address) {
                assert(self.cell_inv(self.cells[address as int]));
                assert(self.records[parameter as int].pointer == Some(address));
                assert(!self.collected_below(isolate, (n - 1) as nat, parameter as int));
                if self.records[parameter as int].finalizer is Some {
                    let entry = SecondPass { isolate, parameter };
                    let extended = entries.push(entry);
                    assert(extended.drop_last() =~= entries);
                    assert(extended.last() == entry);
                    assert(before.is_alive(isolate));
                    assert(second == before.second_pass(parameter));
                    let token = self.records[parameter as int].finalizer->0.token;
                    assert(self.finalized + self.finalized_below(isolate, (n - 1) as nat).push(
                        token,
                    ) =~= (self.finalized + self.finalized_below(isolate, (n - 1) as nat)).push(
                        token,
                    ));
                }
                assert forall|p: int| 0 <= p < self.records.len() implies (#[trigger] second.records[p]).finalizer
                    == (if self.collected_below(isolate, n, p) {
                    None
                } else {
                    self.records[p].finalizer
                }) by {
                    if p != parameter {
                        if self.records[p].pointer == Some(address) {
                            assert(self.cells[address as int]->parameter == p);
                        }
                        assert(self.collected_below(isolate, n, p) == self.collected_below(
                            isolate,
                            (n - 1) as nat,
                            p,
                        ));
                    }
                }
            } else {
                assert forall|p: int| 0 <= p < self.records.len() implies self.collected_below(
                    isolate,
                    n,
                    p,
                ) == self.collected_below(isolate, (n - 1) as nat, p) by {}
            }
        }
    }

    /// What a full collection cycle of `isolate` does, when it begins with an
    /// empty schedule.
    ///
    /// Every cell that was collectable is released, and every other cell is
    /// as before. The side record of every collected cell is empty: the
    /// reference that owns it is empty, and its finalizer has been taken.
    /// Every other side record is as before. The log has gained the token of
    /// the finalizer of every collected cell that had one, once each, in the
    /// order of the cells' addresses. The schedule is empty again.
    pub proof fn lemma_collect_garbage(self, isolate: usize)
        requires
            self.wf(),
            self.second_pass.len() == 0,
        ensures
            ({
                let after = self.collect_garbage(isolate);
                &&& after.wf()
                &&& after.capacity == self.capacity
                &&& after.isolates == self.isolates
                &&& after.scopes == self.scopes
                &&& after.second_pass.len() == 0
                &&& after.cells.len() == self.cells.len()
                &&& after.records.len() == self.records.len()
                &&& after.finalized == self.finalized + self.finalized_below(
                    isolate,
                    self.cells.len(),
                )
                &&& forall|a: int|
                    0 <= a < self.cells.len() ==> #[trigger] after.cells[a] == (
                    if self.collectable(isolate, a as usize) {
                        StorageCell::Released
                    } else {
                        self.cells[a]
                    })
                &&& forall|p: int|
                    0 <= p < self.records.len() ==> #[trigger] after.records[p] == (
                    if self.collected_below(isolate, self.cells.len(), p) {
                        WeakData { pointer: None, finalizer: None }
                    } else {
                        self.records[p]
                    })
            }),
    {
        let n = self.cells.len();
        self.lemma_collect_below(isolate, n);
        self.lemma_scheduled_below(isolate, n);
        self.lemma_second_pass_below(isolate, n);
        let full = self.collect_first_pass(isolate);
        assert(full.second_pass =~= self.scheduled_below(isolate, n));
        let after = self.collect_garbage(isolate);
        assert forall|p: int| 0 <= p < self.records.len() implies #[trigger] after.records[p] == (
        if self.collected_below(isolate, n, p) {
            WeakData { pointer: None, finalizer: None }
        } else {
            self.records[p]
        }) by {
            assert(after.records[p].pointer == full.records[p].pointer);
        }
    }
}

impl Engine {
    /// Whether some existing transient or persistent cell keeps `object`
    /// alive.
    pub fn is_reachable(&self, object: Object) -> (reachable: bool)
        requires
            self@.inv(),
        ensures
            reachable == self@.reachable(object),
    {
        let count = self.cell_count();
        let mut address: usize = 0;
        while address < count
            invariant
                self@.inv(),
                count == self@.cells.len(),
                address <= count,
                forall|a: usize|
                    a < address ==> !(self@.cell_live(a) && (#[trigger] self@.cells[a as int]).is_strong()
                        && self@.cells[a as int].object() == object),
            decreases count - address,
        {
            if self.is_live(address) {
                let held = match self.cell(address) {
                    StorageCell::Transient { isolate: _, object: held, scope: _ } => Some(held),
                    StorageCell::Persistent { isolate: _, object: held } => Some(held),
                    _ => None,
                };
                if held == Some(object) {
                    return true;
                }
            }
            address += 1;
        }
        false
    }

    /// Whether the cell at `address` is a weak cell of the instance at
    /// `isolate` whose target nothing keeps alive.
    pub fn is_collectable(&self, isolate: usize, address: usize) -> (collectable: bool)
        requires
            self@.inv(),
        ensures
            collectable == self@.collectable(isolate, address),
    {
        if !self.is_live(address) {
            return false;
        }
        match self.cell(address) {
            StorageCell::Weak { isolate: owner, object, parameter: _ } => {
                owner == isolate && !self.is_reachable(object)
            },
            _ => false,
        }
    }

    /// Runs the first phase of a collection cycle of the instance at
    /// `isolate`: the first-phase callback of every collectable cell of that
    /// instance, in the order of the cells' addresses. The second-phase
    /// callbacks that they ask for are put on the schedule.
    pub fn collect_first_pass(&mut self, isolate: &Isolate)
        requires
            old(self)@.wf(),
        ensures
            final(self)@ == old(self)@.collect_first_pass(isolate@),
            final(self)@.wf(),
            final(self)@.capacity == old(self)@.capacity,
            final(self)@.isolates == old(self)@.isolates,
            final(self)@.scopes == old(self)@.scopes,
            final(self)@.cells.len() == old(self)@.cells.len(),
            final(self)@.records.len() == old(self)@.records.len(),
            final(self)@.finalized == old(self)@.finalized,
            forall|a: int|
                0 <= a < old(self)@.cells.len() ==> #[trigger] final(self)@.cells[a] == (
                if old(self)@.collectable(isolate@, a as usize) {
                    StorageCell::Released
                } else {
                    old(self)@.cells[a]
                }),
            forall|p: int|
                0 <= p < old(self)@.records.len() ==> #[trigger] final(self)@.records[p] == (
                if old(self)@.collected_below(isolate@, old(self)@.cells.len(), p) {
                    WeakData { pointer: None, finalizer: old(self)@.records[p].finalizer }
                } else {
                    old(self)@.records[p]
                }),
            final(self)@.second_pass == old(self)@.second_pass + old(self)@.scheduled_below(
                isolate@,
                old(self)@.cells.len(),
            ),
    {
        proof {
            old(self)@.lemma_collect_below(isolate@, old(self)@.cells.len());
            old(self)@.lemma_scheduled_below(isolate@, old(self)@.cells.len());
        }
        let count = self.cell_count();
        let mut address: usize = 0;
        while address < count
            invariant
                old(self)@.wf(),
                count == old(self)@.cells.len(),
                address <= count,
                self@ == old(self)@.collect_below(isolate@, address as nat),
                self@.wf(),
            decreases count - address,
        {
            proof {
                let s = old(self)@;
                s.lemma_collect_below(isolate@, address as nat);
                assert(self@.cells[address as int] == s.cells[address as int]);
                s.lemma_collect_below_reachable(isolate@, address as nat, s.object_at(address));
            }
            if let StorageCell::Weak { isolate: _, object: _, parameter } = self.cell(address) {
                if self.is_collectable(isolate.address(), address) {
                    proof {
                        assert(self@.cell_inv(self@.cells[address as int]));
                        assert(self@.records[parameter as int].pointer == Some(address));
                    }
                    let mut wci = WeakCallbackInfo::first_pass(parameter);
                    Weak::<()>::first_pass_callback(self, &mut wci);
                    if wci.second_pass_requested() {
                        self.schedule(SecondPass { isolate: isolate.address(), parameter });
                    }
                }
            }
            address += 1;
        }
    }

    /// Runs the second phase of a collection cycle: the second-phase callback
    /// of every entry of the schedule whose instance is alive, oldest first.
    pub fn collect_second_pass(&mut self)
        requires
            old(self)@.wf(),
        ensures
            final(self)@ == old(self)@.collect_second_pass(),
            final(self)@.wf(),
            final(self)@.capacity == old(self)@.capacity,
            final(self)@.isolates == old(self)@.isolates,
            final(self)@.scopes == old(self)@.scopes,
            final(self)@.cells == old(self)@.cells,
            final(self)@.second_pass.len() == 0,
            final(self)@.records.len() == old(self)@.records.len(),
            forall|p: int|
                0 <= p < old(self)@.records.len() ==> (#[trigger] final(self)@.records[p]).pointer
                    == old(self)@.records[p].pointer,
    {
        proof {
            old(self)@.lemma_collect_second_pass();
        }
        let entries = self.take_schedule();
        let mut done: usize = 0;
        while done < entries.len()
            invariant
                old(self)@.wf(),
                entries@ == old(self)@.second_pass,
                done <= entries@.len(),
                self@ == old(self)@.clear_schedule().run_second_pass(entries@.take(done as int)),
                self@.wf(),
                self@.records.len() == old(self)@.records.len(),
            decreases entries@.len() - done,
        {
            let entry = entries[done];
            proof {
                assert(entries@.take(done + 1).drop_last() =~= entries@.take(done as int));
                assert(entries@.take(done + 1).last() == entry);
                assert(old(self)@.second_pass[done as int].parameter < old(self)@.records.len());
            }
            if self.is_alive(entry.isolate) {
                let wci = WeakCallbackInfo::second_pass(entry.parameter);
                Weak::<()>::second_pass_callback(self, &wci);
            }
            done += 1;
        }
        proof {
            assert(entries@.take(done as int) =~= entries@);
        }
    }

    /// Runs a full collection cycle of the instance at `isolate`: the first
    /// phase, then the second.
    pub fn collect_garbage(&mut self, isolate: &Isolate)
        requires
            old(self)@.wf(),
        ensures
            final(self)@ == old(self)@.collect_garbage(isolate@),
            final(self)@.wf(),
            final(self)@.capacity == old(self)@.capacity,
            final(self)@.isolates == old(self)@.isolates,
            final(self)@.scopes == old(self)@.scopes,
            final(self)@.second_pass.len() == 0,
            final(self)@.cells.len() == old(self)@.cells.len(),
            final(self)@.records.len() == old(self)@.records.len(),
            forall|a: int|
                0 <= a < old(self)@.cells.len() ==> #[trigger] final(self)@.cells[a] == (
                if old(self)@.collectable(isolate@, a as usize) {
                    StorageCell::Released
                } else {
                    old(self)@.cells[a]
                }),
            forall|p: int|
                0 <= p < old(self)@.records.len() ==> (#[trigger] final(self)@.records[p]).pointer
                    == (if old(self)@.collected_below(isolate@, old(self)@.cells.len(), p) {
                    None
                } else {
                    old(self)@.records[p].pointer
                }),
            old(self)@.second_pass.len() == 0 ==> {
                &&& final(self)@.finalized == old(self)@.finalized + old(self)@.finalized_below(
                    isolate@,
                    old(self)@.cells.len(),
                )
                &&& forall|p: int|
                    0 <= p < old(self)@.records.len() ==> #[trigger] final(self)@.records[p] == (
                    if old(self)@.collected_below(isolate@, old(self)@.cells.len(), p) {
                        WeakData { pointer: None, finalizer: None }
                    } else {
                        old(self)@.records[p]
                    })
            },
    {
        proof {
            if old(self)@.second_pass.len() == 0 {
                old(self)@.lemma_collect_garbage(isolate@);
            }
        }
        self.collect_first_pass(isolate);
        self.collect_second_pass();
    }
}

} // verus!
