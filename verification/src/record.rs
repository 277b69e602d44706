//! The pinned side record behind a bound weak reference, and what the two
//! callbacks and the owner's drop do to it.
//!
//! The record has two slots. The address slot is written when the weak cell is
//! registered and emptied by the first-phase callback. The finalizer slot is
//! filled when the record is made and emptied by whoever comes first: the
//! second-phase callback, which then runs the finalizer, or the owner's drop,
//! which discards it. Each slot is emptied by taking, so that what was in it
//! is had by one taker only.
use vstd::prelude::*;

verus! {

/// A one-shot finalizer. Running it appends its token to the engine's log of
/// finalizers that have run; it cannot be run twice because running consumes it.
#[derive(Debug, PartialEq, Eq, Structural)]
pub struct Finalizer {
    pub token: u64,
}

/// The pinned side record behind a bound weak reference.
///
/// The engine knows the record only by its address, which it hands to the
/// first- and second-phase callbacks.
#[derive(Debug)]
pub struct WeakData {
    /// The weak storage cell, until the first-phase callback takes it.
    pub pointer: Option<usize>,
    /// The finalizer, until the second-phase callback (or the owner's drop)
    /// takes it.
    pub finalizer: Option<Finalizer>,
}

/// What the first-phase callback found in a side record.
#[derive(Clone, Copy, Debug, PartialEq, Eq, Structural)]
pub struct Unbound {
    /// The weak cell that the record named, which is to be released.
    pub address: usize,
    /// Whether the record holds a finalizer, so that the second-phase callback
    /// is to be asked for.
    pub second_pass: bool,
}

impl WeakData {
    /// A side record with its address slot unset.
    pub fn new(finalizer: Option<Finalizer>) -> (record: WeakData)
        ensures
            record == (WeakData { pointer: None, finalizer }),
    {
        WeakData { pointer: None, finalizer }
    }

    /// Stores the address of the weak cell that was registered with this
    /// record as its callback parameter.
    pub fn bind(&mut self, address: usize)
        ensures
            *final(self) == (WeakData {
                pointer: Some(address),
                finalizer: old(self).finalizer,
            }),
    {
        self.pointer = Some(address);
    }

    /// The address of the weak cell, while the record is bound.
    pub fn get_pointer(&self) -> (pointer: Option<usize>)
        ensures
            pointer == self.pointer,
    {
        self.pointer
    }

    /// What the first-phase callback does to the record: it takes the address
    /// out, and looks whether there is a finalizer by taking it and putting it
    /// back.
    ///
    /// The callback runs for a cell that is registered, whose record is bound:
    /// a record without an address would be a defect of the engine, not an
    /// input.
    pub fn first_pass(&mut self) -> (unbound: Unbound)
        requires
            old(self).pointer is Some,
        ensures
            unbound.address == old(self).pointer->0,
            unbound.second_pass == old(self).finalizer is Some,
            *final(self) == (WeakData { pointer: None, finalizer: old(self).finalizer }),
    {
        let address = match self.pointer.take() {
            Some(data) => data,
            None => unreached(),
        };
        // Only ask for the second phase if there is a finalizer.
        let second_pass = if let Some(finalizer) = self.finalizer.take() {
            self.finalizer = Some(finalizer);
            true
        } else {
            false
        };
        Unbound { address, second_pass }
    }

    /// What the second-phase callback does to the record: it takes the
    /// finalizer out, for the caller to run. A second call finds none.
    pub fn second_pass(&mut self) -> (finalizer: Option<Finalizer>)
        ensures
            finalizer == old(self).finalizer,
            *final(self) == (WeakData { pointer: old(self).pointer, finalizer: None }),
    {
        self.finalizer.take()
    }

    /// What the owner's drop does to the record: both slots are emptied, and
    /// the finalizer is discarded. Returns the weak cell that is to be
    /// released: the one the record named, if the instance is alive.
    pub fn unpin(&mut self, alive: bool) -> (release: Option<usize>)
        ensures
            release == (if alive {
                old(self).pointer
            } else {
                None
            }),
            *final(self) == (WeakData { pointer: None, finalizer: None }),
    {
        let pointer = self.pointer.take();
        let _ = self.finalizer.take();
        if alive {
            pointer
        } else {
            None
        }
    }
}

} // verus!
