//! Handles to objects on a foreign, garbage-collected heap.
//!
//! The engine that owns the heap may move or reclaim an object whenever the
//! host hands control back to it, so the host never keeps an object's address.
//! It keeps handles: transient references ([`Local`]) that live as long as a
//! scope, persistent references ([`Global`]) that are released explicitly, and
//! weak references ([`Weak`]) that observe the collection of their target and
//! may run a finalizer afterwards. Every handle remembers which engine instance
//! hosts it ([`HandleHost`]), and every operation is permitted only with that
//! instance.
//!
//! Nothing here is ambient. What an operation needs of the engine it is
//! handed: the [`Engine`] holds the storage cells, the pinned side records of
//! the weak references and the liveness of every instance, and each operation
//! states how it changes them. The engine of this crate is a model, small
//! enough to run every operation against. A binding to a running engine makes
//! the same calls through that engine's own interface, and takes its
//! decisions from the parts of this crate that need no engine: the hosts and
//! their matching in [`host`], the side record in [`record`], and the
//! comparison of weak references in [`weak::compare`].
//!
//! A misuse of a handle (the wrong instance, an instance that has been
//! disposed, a cell that no longer exists) is excluded by the preconditions of
//! the operations, so none of them can fail at run time. [`HandleError`] names
//! the misuses, and [`HandleHost::check_match_host`] tells which one a given
//! use would be.
//!
//! The modules:
//! - [`host`]: which instance hosts a handle, and whether two hosts match;
//! - [`record`]: the side record of a weak reference as a small state machine;
//! - [`state`]: the state of the engine as plain data, its invariants and its
//!   transitions;
//! - [`lemmas`]: the transitions keep the invariants;
//! - [`engine`]: the engine's entry points;
//! - [`handle`]: transient and persistent references;
//! - [`weak`]: weak references and the two callbacks of their finalization;
//! - [`collector`]: a collection cycle, which runs those callbacks;
//! - [`laws`]: what holds of all of these together.
pub mod collector;
pub mod engine;
pub mod handle;
pub mod host;
pub mod laws;
pub mod lemmas;
pub mod record;
pub mod state;
pub mod weak;

pub use engine::Engine;
pub use engine::HandleScope;
pub use engine::Isolate;
pub use engine::IsolateHandle;
pub use handle::Global;
pub use handle::Handle;
pub use handle::HandleInfo;
pub use handle::Local;
pub use host::HandleError;
pub use host::HandleHost;
pub use record::Finalizer;
pub use record::Unbound;
pub use record::WeakData;
pub use state::EngineState;
pub use state::Object;
pub use state::ScopeState;
pub use state::SecondPass;
pub use state::StorageCell;
pub use weak::Weak;
pub use weak::WeakComparison;
pub use weak::WeakCallbackInfo;
