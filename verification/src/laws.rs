//! What holds of the handles taken together: how minting, registering,
//! cloning, dropping and collecting relate to one another.
//!
//! Each law is stated over the state of the engine before the first of the
//! operations it speaks of, and over the states that the contracts of those
//! operations give.
use vstd::prelude::*;
use crate::handle::Global;
use crate::handle::Handle;
use crate::handle::HandleInfo;
use crate::handle::Local;
use crate::host::HandleError;
use crate::host::HandleHost;
use crate::state::EngineState;
use crate::weak::Weak;

verus! {

/// A transient reference minted from a handle refers to the object that the
/// handle refers to: reading it yields that object.
pub proof fn law_local_reads_its_source<'s, T>(
    s: EngineState,
    isolate: usize,
    scope: usize,
    source: HandleInfo<T>,
    local: Local<'s, T>,
)
    requires
        s.wf(),
        s.scope_live(isolate, scope),
        source.hosted_by(s, isolate),
        s.has_room(),
        local.address() == s.cells.len(),
    ensures
        s.mint(isolate, scope, source.data).wf(),
        local.wf(s.mint(isolate, scope, source.data)),
        s.mint(isolate, scope, source.data).object_at(local.address()) == s.object_at(
            source.data,
        ),
{
    s.lemma_mint(isolate, scope, source.data);
}

/// A persistent reference registered from a handle can be opened with its
/// instance, and then yields the object that the handle refers to. Dropping
/// it changes nothing for the handle it was registered from: that handle is as
/// valid as before, and refers to the same object.
pub proof fn law_global_reads_its_source<T>(
    s: EngineState,
    isolate: usize,
    source: HandleInfo<T>,
    global: Global<T>,
)
    requires
        s.wf(),
        source.hosted_by(s, isolate),
        s.has_room(),
        global.address() == s.cells.len(),
        global.instance() == isolate,
    ensures
        s.register(isolate, source.data).wf(),
        global.wf(s.register(isolate, source.data)),
        global.info(s.register(isolate, source.data)).valid(s.register(isolate, source.data)),
        global.info(s.register(isolate, source.data)).host.isolate_error(isolate) is None,
        s.register(isolate, source.data).object_at(global.address()) == s.object_at(source.data),
        global.dropped(s.register(isolate, source.data)).wf(),
        source.valid(global.dropped(s.register(isolate, source.data))),
        global.dropped(s.register(isolate, source.data)).object_at(source.data) == s.object_at(
            source.data,
        ),
{
    s.lemma_register(isolate, source.data);
    s.register(isolate, source.data).lemma_release(global.address());
}

/// A clone of a persistent reference refers to the same object through a cell
/// of its own. Either of the two can be dropped and the other stays valid and
/// refers to the same object.
pub proof fn law_clone_is_independent<T>(s: EngineState, global: Global<T>, clone: Global<T>)
    requires
        s.wf(),
        global.wf(s),
        global.info(s).valid(s),
        s.has_room(),
        clone.address() == s.cells.len(),
        clone.instance() == global.instance(),
    ensures
        ({
            let t = s.register(global.instance(), global.address());
            let without_clone = clone.dropped(t);
            let without_global = global.dropped(t);
            &&& t.wf()
            &&& clone.address() != global.address()
            &&& clone.wf(t)
            &&& clone.info(t).valid(t)
            &&& global.info(t).valid(t)
            &&& t.object_at(clone.address()) == t.object_at(global.address())
            &&& without_clone.wf()
            &&& global.info(without_clone).valid(without_clone)
            &&& without_clone.object_at(global.address()) == s.object_at(global.address())
            &&& without_global.wf()
            &&& clone.info(without_global).valid(without_global)
            &&& without_global.object_at(clone.address()) == s.object_at(global.address())
        }),
{
    let t = s.register(global.instance(), global.address());
    s.lemma_register(global.instance(), global.address());
    t.lemma_release(clone.address());
    t.lemma_release(global.address());
}

/// A persistent reference can be dropped once: after that it no longer owns a
/// registered cell, and neither does any other reference to the same cell, so
/// that no cell is released twice.
pub proof fn law_cell_is_released_once<T>(s: EngineState, global: Global<T>, twin: Global<T>)
    requires
        s.wf(),
        global.wf(s),
        s.is_alive(global.instance()),
        twin.address() == global.address(),
    ensures
        !global.dropped(s).cell_live(global.address()),
        !global.wf(global.dropped(s)),
        !twin.wf(global.dropped(s)),
{
}

/// Whether two hosts match does not depend on the order in which they are
/// given.
pub proof fn law_match_is_symmetric(a: HandleHost, b: HandleHost, hint: Option<usize>)
    ensures
        a.matches(b, hint) == b.matches(a, hint),
        a.usage_error(b, hint) == b.usage_error(a, hint),
{
}

/// Two hosts that name different instances do not match, whichever comes
/// first and whatever the caller supplies: using them together is a host
/// mismatch.
pub proof fn law_different_instances_mismatch(a: usize, b: usize, hint: Option<usize>)
    requires
        a != b,
    ensures
        HandleHost::Isolate(a).usage_error(HandleHost::Isolate(b), hint) == Some(
            HandleError::HostMismatch,
        ),
        HandleHost::Isolate(b).usage_error(HandleHost::Isolate(a), hint) == Some(
            HandleError::HostMismatch,
        ),
        HandleHost::Isolate(a).isolate_error(b) == Some(HandleError::HostMismatch),
{
}

/// No reference can be minted or registered with an instance from a handle of
/// another instance: such a handle is not hosted by that instance, wherever
/// it is supplied as an instance or through a scope. If the handle names its
/// instance, the error is a host mismatch.
pub proof fn law_foreign_handle_is_refused<T>(s: EngineState, source: HandleInfo<T>, isolate: usize)
    requires
        source.valid(s),
        s.cells[source.data as int].isolate() != isolate,
    ensures
        !source.hosted_by(s, isolate),
        source.host is Isolate ==> source.host.isolate_error(isolate) == Some(
            HandleError::HostMismatch,
        ),
{
}

/// `Local::new`, `Global::new`, `Weak::new` and `Weak::with_finalizer` take no
/// persistent reference of another live instance as their source, whether
/// that instance is supplied as such or through a scope. Their precondition,
/// that the source is hosted by the instance, does not hold, so that no cell
/// is minted or registered and no side record pinned; and what is wrong is a
/// host mismatch, with the message of a host mismatch.
pub proof fn law_new_refuses_a_foreign_global<T>(s: EngineState, source: Global<T>, isolate: usize)
    requires
        s.is_alive(source.instance()),
        source.instance() != isolate,
    ensures
        source.info(s).host == HandleHost::Isolate(source.instance()),
        source.info(s).host.isolate_error(isolate) == Some(HandleError::HostMismatch),
        !source.info(s).hosted_by(s, isolate),
        HandleError::HostMismatch.message_spec()
            == "attempt to use Handle in an Isolate that is not its host"@,
{
}

/// `Local::new`, `Global::new`, `Weak::new` and `Weak::with_finalizer` take no
/// transient reference to a cell of another instance as their source: their
/// precondition does not hold. A transient reference names no instance, so
/// this is more than a comparison of hosts can tell.
pub proof fn law_new_refuses_a_foreign_local<'s, T>(
    s: EngineState,
    source: Local<'s, T>,
    isolate: usize,
)
    requires
        source.wf(s),
        s.cells[source.address() as int].isolate() != isolate,
    ensures
        !source.info(s).hosted_by(s, isolate),
{
}

/// A persistent or weak reference whose instance is alive names that
/// instance as its host, and is refused by every other instance with a host
/// mismatch.
pub proof fn law_wrong_instance_is_a_mismatch<T>(
    s: EngineState,
    global: Global<T>,
    weak: Weak<T>,
    isolate: usize,
)
    requires
        s.is_alive(global.instance()),
        s.is_alive(weak.instance()),
    ensures
        global.instance() != isolate ==> global.info(s).host.isolate_error(isolate) == Some(
            HandleError::HostMismatch,
        ),
        weak.instance() != isolate ==> weak.host(s).isolate_error(isolate) == Some(
            HandleError::HostMismatch,
        ),
        global.info(s).host.isolate_error(global.instance()) is None,
        weak.host(s).isolate_error(weak.instance()) is None,
{
}

/// A weak reference that was created empty is empty in every state, and
/// opens to nothing.
pub proof fn law_empty_weak_is_empty<T>(s: EngineState, weak: Weak<T>)
    requires
        weak.record() is None,
    ensures
        weak.wf(s),
        weak.pointer(s) is None,
        weak.opened(s) is None,
        weak.dropped(s) == s,
{
}

/// After the first-phase and the second-phase callback have run for a bound
/// weak reference with a finalizer, the reference is empty and the finalizer
/// has run once: its token is the one entry that the log has gained, and the
/// side record holds no finalizer any more, so that a second-phase callback
/// that runs again changes nothing.
pub proof fn law_finalizer_runs_once<T>(s: EngineState, weak: Weak<T>)
    requires
        s.wf(),
        weak.wf(s),
        weak.pointer(s) is Some,
        s.records[weak.record()->0 as int].finalizer is Some,
    ensures
        ({
            let parameter = weak.record()->0;
            let first = s.first_pass(parameter);
            let second = first.second_pass(parameter);
            &&& first.wf()
            &&& weak.wf(first)
            &&& weak.pointer(first) is None
            &&& first.finalized == s.finalized
            &&& first.records[parameter as int].finalizer == s.records[parameter as int].finalizer
            &&& second.wf()
            &&& weak.pointer(second) is None
            &&& second.finalized == s.finalized.push(
                s.records[parameter as int].finalizer->0.token,
            )
            &&& second.records[parameter as int].finalizer is None
            &&& second.second_pass(parameter) == second
        }),
{
    let parameter = weak.record()->0;
    s.lemma_first_pass(parameter);
    s.first_pass(parameter).lemma_second_pass(parameter);
}

/// A bound weak reference without a finalizer is emptied by the first-phase
/// callback, which asks for no second phase; were one to run, the log would
/// stay as it is.
pub proof fn law_no_finalizer_no_second_phase<T>(s: EngineState, weak: Weak<T>)
    requires
        s.wf(),
        weak.wf(s),
        weak.pointer(s) is Some,
        s.records[weak.record()->0 as int].finalizer is None,
    ensures
        weak.pointer(s.first_pass(weak.record()->0)) is None,
        s.first_pass(weak.record()->0).second_pass(weak.record()->0) == s.first_pass(
            weak.record()->0,
        ),
{
}

/// Cloning a bound weak reference and dropping the clone leaves the reference
/// that was cloned as it was: bound to the same cell, with its finalizer still
/// in place.
pub proof fn law_dropped_clone_keeps_finalizer<T>(s: EngineState, weak: Weak<T>, clone: Weak<T>)
    requires
        s.wf(),
        weak.wf(s),
        weak.pointer(s) is Some,
        s.is_alive(weak.instance()),
        s.has_room(),
        clone.record() == Some(s.records.len() as usize),
        clone.instance() == weak.instance(),
    ensures
        ({
            let cloned = s.register_weak(weak.instance(), weak.pointer(s)->0, None);
            let after = clone.dropped(cloned);
            &&& cloned.wf()
            &&& clone.wf(cloned)
            &&& clone.pointer(cloned) == Some(s.cells.len() as usize)
            &&& clone.opened(cloned) == weak.opened(s)
            &&& after.wf()
            &&& weak.wf(after)
            &&& after.records[weak.record()->0 as int] == s.records[weak.record()->0 as int]
            &&& after.cells[weak.pointer(s)->0 as int] == s.cells[weak.pointer(s)->0 as int]
            &&& after.finalized == s.finalized
        }),
{
    let address = weak.pointer(s)->0;
    let cloned = s.register_weak(weak.instance(), address, None);
    assert(s.cells[address as int] is Weak);
    s.lemma_register_weak(weak.instance(), address, None);
    cloned.lemma_unpin(s.records.len() as usize, true);
}

/// Two weak references of one live instance are equal if both are bound to
/// the same object or both are empty, and unequal otherwise.
pub proof fn law_weak_equality<T, T2>(s: EngineState, a: Weak<T>, b: Weak<T2>)
    requires
        s.is_alive(a.instance()),
        a.instance() == b.instance(),
    ensures
        a.pointer(s) is Some && b.pointer(s) is Some ==> (a.equals(&b, s) <==> a.opened(s)
            == b.opened(s)),
        a.pointer(s) is None && b.pointer(s) is None ==> a.equals(&b, s),
        a.pointer(s) is Some != b.pointer(s) is Some ==> !a.equals(&b, s),
{
}

/// Two weak references of different live instances are never equal, not even
/// when both are empty.
pub proof fn law_weak_of_different_instances<T, T2>(s: EngineState, a: Weak<T>, b: Weak<T2>)
    requires
        s.is_alive(a.instance()),
        s.is_alive(b.instance()),
        a.instance() != b.instance(),
    ensures
        !a.equals(&b, s),
{
}

/// Two bound weak references of one live instance are equal once the
/// first-phase callbacks of both have run, whether or not they were equal
/// before.
pub proof fn law_collected_weaks_are_equal<T, T2>(s: EngineState, a: Weak<T>, b: Weak<T2>)
    requires
        s.wf(),
        a.wf(s),
        b.wf(s),
        a.pointer(s) is Some,
        b.pointer(s) is Some,
        s.is_alive(a.instance()),
        a.instance() == b.instance(),
    ensures
        a.equals(&b, s.first_pass(a.record()->0).first_pass(b.record()->0)),
        a.equals(&b, s.first_pass(b.record()->0).first_pass(a.record()->0)),
{
}

/// Whatever is done together with a handle whose instance has been disposed
/// is an access to a disposed instance, which is told apart from a host
/// mismatch by its message.
pub proof fn law_disposed_host_is_an_error(other: HandleHost, hint: Option<usize>, isolate: usize)
    ensures
        HandleHost::DisposedIsolate.usage_error(other, hint) == Some(
            HandleError::DisposedInstanceAccess,
        ),
        other.usage_error(HandleHost::DisposedIsolate, hint) == Some(
            HandleError::DisposedInstanceAccess,
        ),
        HandleHost::DisposedIsolate.isolate_error(isolate) == Some(
            HandleError::DisposedInstanceAccess,
        ),
        HandleError::DisposedInstanceAccess.message_spec() != HandleError::HostMismatch.message_spec(),
{
    reveal_strlit("attempt to use Handle in an Isolate that is not its host");
    reveal_strlit("attempt to access Handle hosted by disposed Isolate");
    assert(HandleError::DisposedInstanceAccess.message_spec().len()
        != HandleError::HostMismatch.message_spec().len());
}

/// A handle that names a disposed instance as its host is not valid, and
/// reading it is an access to a disposed instance.
pub proof fn law_disposed_handle_is_not_valid<T>(s: EngineState, info: HandleInfo<T>)
    requires
        info.host is DisposedIsolate,
    ensures
        !info.valid(s),
        info.host.access_error() == Some(HandleError::DisposedInstanceAccess),
{
}

/// A persistent reference whose instance has been disposed can be neither
/// opened (`Global::open`, `Handle::open`), read (`Global::borrow`,
/// `Handle::get_unchecked`), hashed (`Global::hash`), cloned
/// (`Global::clone`) nor compared with any handle, from either side
/// (`Global::eq`, `Local::eq`, `Weak::eq_handle`): the precondition of each
/// of them does not hold, so that its address is never read. What is wrong is
/// an access to a disposed instance, whichever instance is supplied and
/// whatever the other handle is, and its message is not that of a host
/// mismatch.
pub proof fn law_disposed_global_is_refused<T>(
    s: EngineState,
    global: Global<T>,
    other: HandleHost,
    isolate: usize,
)
    requires
        !s.is_alive(global.instance()),
    ensures
        global.info(s).host == HandleHost::DisposedIsolate,
        !global.info(s).valid(s),
        global.info(s).host.access_error() == Some(HandleError::DisposedInstanceAccess),
        global.info(s).host.isolate_error(isolate) == Some(HandleError::DisposedInstanceAccess),
        global.info(s).host.usage_error(other, None) == Some(HandleError::DisposedInstanceAccess),
        other.usage_error(global.info(s).host, None) == Some(HandleError::DisposedInstanceAccess),
        HandleError::DisposedInstanceAccess.message_spec()
            == "attempt to access Handle hosted by disposed Isolate"@,
        HandleError::DisposedInstanceAccess.message_spec() != HandleError::HostMismatch.message_spec(),
{
    law_disposed_host_is_an_error(other, None, isolate);
}

/// A weak reference whose instance has been disposed can be neither hashed
/// (`Weak::hash`) nor compared (`Weak::eq`, `Weak::eq_handle`), from either
/// side and whether it is bound or empty, and while it is bound it can be
/// neither opened (`Weak::open`) nor turned into another reference
/// (`Weak::as_global`, `Weak::as_local`) nor cloned: the precondition of each
/// of them does not hold. What is wrong is an access to a disposed instance.
pub proof fn law_disposed_weak_is_refused<T>(
    s: EngineState,
    weak: Weak<T>,
    other: HandleHost,
    isolate: usize,
)
    requires
        !s.is_alive(weak.instance()),
    ensures
        weak.host(s) == HandleHost::DisposedIsolate,
        weak.host(s).access_error() == Some(HandleError::DisposedInstanceAccess),
        weak.host(s).isolate_error(isolate) == Some(HandleError::DisposedInstanceAccess),
        weak.host(s).usage_error(other, None) == Some(HandleError::DisposedInstanceAccess),
        other.usage_error(weak.host(s), None) == Some(HandleError::DisposedInstanceAccess),
        HandleError::DisposedInstanceAccess.message_spec() != HandleError::HostMismatch.message_spec(),
{
    law_disposed_host_is_an_error(other, None, isolate);
}

/// A persistent reference that is taken apart into the address of its cell
/// and put together again for the same instance is the reference it was.
pub proof fn law_raw_round_trip<T>(global: Global<T>, rebuilt: Global<T>, s: EngineState)
    requires
        rebuilt.address() == global.address(),
        rebuilt.instance() == global.instance(),
    ensures
        rebuilt.info(s) == global.info(s),
        rebuilt.wf(s) == global.wf(s),
        rebuilt.dropped(s) == global.dropped(s),
{
}

/// A collection cycle leaves every transient and every persistent cell as it
/// is, and every weak cell whose target is still reachable: what a valid
/// handle refers to is never collected under it.
pub proof fn law_collection_spares_the_reachable(s: EngineState, isolate: usize, address: usize)
    requires
        s.wf(),
        s.second_pass.len() == 0,
        s.cell_live(address),
        s.cells[address as int].is_strong() || s.reachable(s.object_at(address)),
    ensures
        s.collect_garbage(isolate).cell_live(address),
        s.collect_garbage(isolate).cells[address as int] == s.cells[address as int],
{
    s.lemma_collect_garbage(isolate);
}

/// A collection cycle takes no handle away from the host. A transient or
/// persistent reference that was valid is valid afterwards and refers to the
/// same object. A weak reference stays well formed: it is empty afterwards if
/// its target had become unreachable, and bound to the same cell otherwise.
pub proof fn law_collection_keeps_handles<'s, T>(
    s: EngineState,
    isolate: usize,
    local: Local<'s, T>,
    global: Global<T>,
    weak: Weak<T>,
)
    requires
        s.wf(),
        s.second_pass.len() == 0,
    ensures
        local.wf(s) ==> local.wf(s.collect_garbage(isolate)) && s.collect_garbage(
            isolate,
        ).object_at(local.address()) == s.object_at(local.address()),
        global.wf(s) ==> global.wf(s.collect_garbage(isolate)) && s.collect_garbage(
            isolate,
        ).object_at(global.address()) == s.object_at(global.address()),
        global.wf(s) && global.info(s).valid(s) ==> global.info(
            s.collect_garbage(isolate),
        ).valid(s.collect_garbage(isolate)),
        weak.wf(s) ==> weak.wf(s.collect_garbage(isolate)) && weak.pointer(
            s.collect_garbage(isolate),
        ) == (if weak.pointer(s) matches Some(address) && s.collectable(isolate, address) {
            None
        } else {
            weak.pointer(s)
        }),
{
    s.lemma_collect_garbage(isolate);
    let after = s.collect_garbage(isolate);
    if weak.wf(s) {
        if let Some(parameter) = weak.record() {
            assert(after.records[parameter as int].pointer == (if s.collected_below(
                isolate,
                s.cells.len(),
                parameter as int,
            ) {
                None
            } else {
                s.records[parameter as int].pointer
            }));
        }
    }
}

/// After a collection cycle, a weak reference whose target had become
/// unreachable is empty, and its finalizer has been taken out of its side
/// record. The log has gained the tokens of the finalizers of the collected
/// references, each once.
pub proof fn law_collection_empties_weak<T>(s: EngineState, isolate: usize, weak: Weak<T>)
    requires
        s.wf(),
        s.second_pass.len() == 0,
        weak.wf(s),
        weak.pointer(s) matches Some(address) && s.collectable(isolate, address),
    ensures
        s.collect_garbage(isolate).wf(),
        weak.wf(s.collect_garbage(isolate)),
        weak.pointer(s.collect_garbage(isolate)) is None,
        s.collect_garbage(isolate).records[weak.record()->0 as int].finalizer is None,
        s.collect_garbage(isolate).finalized == s.finalized + s.finalized_below(
            isolate,
            s.cells.len(),
        ),
{
    s.lemma_collect_garbage(isolate);
    let address = weak.pointer(s)->0;
    assert(s.collected_below(isolate, s.cells.len(), weak.record()->0 as int));
}

/// If a weak reference with a finalizer is the only one whose target has
/// become unreachable, a collection cycle runs that finalizer once and no
/// other: the log gains its token and nothing else. A second cycle changes
/// nothing.
pub proof fn law_collection_runs_finalizer_once<T>(s: EngineState, isolate: usize, weak: Weak<T>)
    requires
        s.wf(),
        s.second_pass.len() == 0,
        weak.wf(s),
        weak.pointer(s) matches Some(address) && s.collectable(isolate, address),
        s.records[weak.record()->0 as int].finalizer is Some,
        forall|other: usize| s.collectable(isolate, other) ==> Some(other) == weak.pointer(s),
    ensures
        s.collect_garbage(isolate).wf(),
        weak.wf(s.collect_garbage(isolate)),
        weak.pointer(s.collect_garbage(isolate)) is None,
        s.collect_garbage(isolate).finalized == s.finalized.push(
            s.records[weak.record()->0 as int].finalizer->0.token,
        ),
        s.collect_garbage(isolate).collect_garbage(isolate).finalized == s.collect_garbage(
            isolate,
        ).finalized,
{
    let after = s.collect_garbage(isolate);
    let address = weak.pointer(s)->0;
    let token = s.records[weak.record()->0 as int].finalizer->0.token;
    law_collection_empties_weak(s, isolate, weak);
    assert(s.cells[address as int]->parameter == weak.record()->0);
    lemma_single_finalizer(s, isolate, s.cells.len(), address);
    assert(s.finalized + seq![token] =~= s.finalized.push(token));
    s.lemma_collect_garbage(isolate);
    after.lemma_collect_garbage(isolate);
    assert forall|other: usize| !after.collectable(isolate, other) by {
        if after.collectable(isolate, other) {
            assert(after.cells[other as int] == s.cells[other as int]);
            assert(!s.collectable(isolate, other));
            let held = choose|a: usize|
                s.cell_live(a) && (#[trigger] s.cells[a as int]).is_strong()
                    && s.cells[a as int].object() == s.object_at(other);
            assert(after.cells[held as int] == s.cells[held as int]);
            assert(after.cell_live(held));
        }
    }
    lemma_no_finalizer(after, isolate, after.cells.len());
    assert(after.finalized + Seq::<u64>::empty() =~= after.finalized);
}

/// Where at most the cell at `address` is collectable, the finalizers that a
/// cycle runs for the cells below `n` are that of this cell, if it is below
/// `n` and has one, and no other.
proof fn lemma_single_finalizer(s: EngineState, isolate: usize, n: nat, address: usize)
    requires
        n <= s.cells.len() <= usize::MAX,
        forall|other: usize| s.collectable(isolate, other) ==> other == address,
    ensures
        s.finalized_below(isolate, n) == (if address < n && s.collectable(isolate, address)
            && s.records[s.cells[address as int]->parameter as int].finalizer is Some {
            seq![s.records[s.cells[address as int]->parameter as int].finalizer->0.token]
        } else {
            Seq::empty()
        }),
    decreases n,
{
    if n > 0 {
        lemma_single_finalizer(s, isolate, (n - 1) as nat, address);
        let last = (n - 1) as usize;
        if s.collectable(isolate, last) {
            assert(last == address);
            let token = s.records[s.cells[address as int]->parameter as int].finalizer->0.token;
            assert(Seq::<u64>::empty().push(token) =~= seq![token]);
        }
    }
}

/// Where no cell is collectable, a cycle runs no finalizer.
proof fn lemma_no_finalizer(s: EngineState, isolate: usize, n: nat)
    requires
        forall|other: usize| !s.collectable(isolate, other),
    ensures
        s.finalized_below(isolate, n) == Seq::<u64>::empty(),
    decreases n,
{
    if n > 0 {
        lemma_no_finalizer(s, isolate, (n - 1) as nat);
    }
}

/// After a collection cycle, two weak references of the cycle's instance
/// whose targets had become unreachable are equal, whether or not they were
/// equal before.
pub proof fn law_collection_makes_weaks_equal<T, T2>(
    s: EngineState,
    isolate: usize,
    a: Weak<T>,
    b: Weak<T2>,
)
    requires
        s.wf(),
        s.second_pass.len() == 0,
        a.wf(s),
        b.wf(s),
        a.pointer(s) matches Some(address) && s.collectable(isolate, address),
        b.pointer(s) matches Some(address) && s.collectable(isolate, address),
    ensures
        a.instance() == isolate,
        b.instance() == isolate,
        s.collect_garbage(isolate).is_alive(isolate),
        a.equals(&b, s.collect_garbage(isolate)),
{
    law_collection_empties_weak(s, isolate, a);
    law_collection_empties_weak(s, isolate, b);
    s.lemma_collect_garbage(isolate);
}

} // verus!
