//! Which engine instance hosts a handle, and whether two hosts are compatible.
use vstd::prelude::*;
use crate::engine::Engine;
use crate::engine::Isolate;
use crate::engine::IsolateHandle;

verus! {

/// The ways in which a handle can be misused. Each of them is fatal: no
/// operation of this library may be called on inputs that give one.
#[derive(Clone, Copy, Debug, PartialEq, Eq, Structural)]
pub enum HandleError {
    /// The handle is hosted by another instance than the one it is used with.
    HostMismatch,
    /// The instance that hosted the handle has been disposed.
    DisposedInstanceAccess,
    /// The instance of the handle is asked for, and the handle is transient:
    /// it cannot tell.
    HostUnavailable,
}

impl HandleError {
    /// The text that describes the error.
    pub open spec fn message_spec(self) -> Seq<char> {
        match self {
            HandleError::HostMismatch => "attempt to use Handle in an Isolate that is not its host"@,
            HandleError::DisposedInstanceAccess => "attempt to access Handle hosted by disposed Isolate"@,
            HandleError::HostUnavailable => "host Isolate for Handle not available"@,
        }
    }

    /// The text that describes the error.
    pub fn message(&self) -> (text: &'static str)
        ensures
            text@ == self.message_spec(),
    {
        match self {
            HandleError::HostMismatch => "attempt to use Handle in an Isolate that is not its host",
            HandleError::DisposedInstanceAccess => "attempt to access Handle hosted by disposed Isolate",
            HandleError::HostUnavailable => "host Isolate for Handle not available",
        }
    }
}

/// The instance that hosts a handle, as far as the handle can tell.
#[derive(Clone, Copy, Debug, PartialEq, Eq, Structural)]
pub enum HandleHost {
    /// The handle is transient and cannot tell which instance hosts it. This
    /// does not mean that no instance does: whoever knows the instance of the
    /// scope that is entered has to say.
    Scope,
    /// The handle is hosted by the live instance at this address.
    Isolate(usize),
    /// The instance that hosted the handle has been disposed.
    DisposedIsolate,
}

/// The address that an optional instance stands for.
pub open spec fn hint_of(isolate: Option<&Isolate>) -> Option<usize> {
    match isolate {
        Some(isolate) => Some(isolate@),
        None => None,
    }
}

impl HandleHost {
    /// The host of a handle of the instance that is entered.
    pub fn from_isolate(isolate: &Isolate) -> (host: HandleHost)
        ensures
            host == HandleHost::Isolate(isolate@),
    {
        HandleHost::Isolate(isolate.address())
    }

    /// The host that the address which a weak handle to an instance yields
    /// stands for: the instance at that address, or, for the null address, an
    /// instance that has been disposed.
    pub fn from_address(address: usize) -> (host: HandleHost)
        ensures
            host == (if address == 0 {
                HandleHost::DisposedIsolate
            } else {
                HandleHost::Isolate(address)
            }),
    {
        if address == 0 {
            HandleHost::DisposedIsolate
        } else {
            HandleHost::Isolate(address)
        }
    }

    /// The host that a weak handle to an instance names in state `s`.
    pub open spec fn of_handle(s: crate::state::EngineState, instance: usize) -> HandleHost {
        if s.is_alive(instance) {
            HandleHost::Isolate(instance)
        } else {
            HandleHost::DisposedIsolate
        }
    }

    /// The host of a handle that keeps a weak handle to its instance: that
    /// instance while it is alive, and `DisposedIsolate` afterwards.
    pub fn from_isolate_handle(engine: &Engine, isolate_handle: &IsolateHandle) -> (host:
        HandleHost)
        requires
            engine@.inv(),
        ensures
            host == HandleHost::of_handle(engine@, isolate_handle@),
    {
        HandleHost::from_address(isolate_handle.get_isolate_ptr(engine))
    }

    /// The instance a live host stands for: the one it names, or for a
    /// transient handle the one the caller supplied, if any.
    pub open spec fn resolve(self, hint: Option<usize>) -> Option<usize> {
        match self {
            HandleHost::Scope => hint,
            HandleHost::Isolate(address) => Some(address),
            HandleHost::DisposedIsolate => None,
        }
    }

    /// Two live hosts match if they stand for the same instance. Where one of
    /// them cannot be resolved, because it is transient and the caller gave no
    /// hint, they are taken to match: the check is then permissive, and proves
    /// nothing.
    pub open spec fn matches(self, other: HandleHost, hint: Option<usize>) -> bool {
        match (self.resolve(hint), other.resolve(hint)) {
            (Some(a), Some(b)) => a == b,
            _ => true,
        }
    }

    /// The error, if any, of using a handle hosted by `self` together with one
    /// hosted by `other`. Disposal is reported before a mismatch.
    pub open spec fn usage_error(self, other: HandleHost, hint: Option<usize>) -> Option<
        HandleError,
    > {
        if self is DisposedIsolate || other is DisposedIsolate {
            Some(HandleError::DisposedInstanceAccess)
        } else if !self.matches(other, hint) {
            Some(HandleError::HostMismatch)
        } else {
            None
        }
    }

    /// The error, if any, of using a handle hosted by `self` with the instance
    /// at `isolate`.
    pub open spec fn isolate_error(self, isolate: usize) -> Option<HandleError> {
        self.usage_error(HandleHost::Isolate(isolate), Some(isolate))
    }

    /// Compares two hosts, neither of which is disposed. If the caller knows
    /// which instance the entered scope belongs to, it passes that instance
    /// on, and the answer is exact.
    pub fn match_host(self, other: HandleHost, scope_isolate_opt: Option<&Isolate>) -> (matched:
        bool)
        requires
            !(self is DisposedIsolate),
            !(other is DisposedIsolate),
        ensures
            matched == self.matches(other, hint_of(scope_isolate_opt)),
    {
        let hint: Option<usize> = match scope_isolate_opt {
            Some(isolate) => Some(isolate.address()),
            None => None,
        };
        match (self, other, hint) {
            (HandleHost::Scope, HandleHost::Scope, _) => true,
            (HandleHost::Isolate(ile1), HandleHost::Isolate(ile2), _) => ile1 == ile2,
            (HandleHost::Scope, HandleHost::Isolate(ile1), Some(ile2)) => ile1 == ile2,
            (HandleHost::Isolate(ile1), HandleHost::Scope, Some(ile2)) => ile1 == ile2,
            // Without a hint no meaningful check is possible: the hosts are
            // taken to match.
            (HandleHost::Scope, HandleHost::Isolate(_), None) => true,
            (HandleHost::Isolate(_), HandleHost::Scope, None) => true,
            // A handle whose instance has been disposed is good for nothing,
            // not even for a comparison with another such handle.
            (HandleHost::DisposedIsolate, _, _) => unreached(),
            (_, HandleHost::DisposedIsolate, _) => unreached(),
        }
    }

    /// States that two hosts match. Callers have to show it.
    pub fn assert_match_host(self, other: HandleHost, scope_opt: Option<&Isolate>)
        requires
            self.usage_error(other, hint_of(scope_opt)) is None,
    {
        let matched = self.match_host(other, scope_opt);
        assert(matched);
    }

    /// Whether a host that is not disposed matches the instance at `isolate`.
    pub fn match_isolate(self, isolate: &Isolate) -> (matched: bool)
        requires
            !(self is DisposedIsolate),
        ensures
            matched == self.matches(HandleHost::Isolate(isolate@), Some(isolate@)),
            matched == (self is Scope || self == HandleHost::Isolate(isolate@)),
    {
        self.match_host(HandleHost::from_isolate(isolate), Some(isolate))
    }

    /// States that a host matches the instance at `isolate`. Callers have to
    /// show it.
    pub fn assert_match_isolate(self, isolate: &Isolate)
        requires
            self.isolate_error(isolate@) is None,
    {
        self.assert_match_host(HandleHost::from_isolate(isolate), Some(isolate))
    }

    /// Classifies the use of a handle hosted by `self` together with one
    /// hosted by `other`: whether it is permitted, and if not, why.
    pub fn check_match_host(self, other: HandleHost, scope_isolate_opt: Option<&Isolate>) -> (checked:
        Result<(), HandleError>)
        ensures
            checked == (match self.usage_error(other, hint_of(scope_isolate_opt)) {
                Some(error) => Err::<(), HandleError>(error),
                None => Ok::<(), HandleError>(()),
            }),
    {
        if matches!(self, HandleHost::DisposedIsolate) || matches!(
            other,
            HandleHost::DisposedIsolate
        ) {
            Err(HandleError::DisposedInstanceAccess)
        } else if !self.match_host(other, scope_isolate_opt) {
            Err(HandleError::HostMismatch)
        } else {
            Ok(())
        }
    }

    /// Classifies the use of a handle hosted by `self` with the instance at
    /// `isolate`.
    pub fn check_match_isolate(self, isolate: &Isolate) -> (checked: Result<(), HandleError>)
        ensures
            checked == (match self.isolate_error(isolate@) {
                Some(error) => Err::<(), HandleError>(error),
                None => Ok::<(), HandleError>(()),
            }),
    {
        self.check_match_host(HandleHost::from_isolate(isolate), Some(isolate))
    }

    /// The error, if any, of reading a handle hosted by `self`, whatever
    /// instance is entered: its instance must not have been disposed.
    pub open spec fn access_error(self) -> Option<HandleError> {
        if self is DisposedIsolate {
            Some(HandleError::DisposedInstanceAccess)
        } else {
            None
        }
    }

    /// Classifies the reading of a handle hosted by `self`, whatever instance
    /// is entered.
    pub fn check_alive(self) -> (checked: Result<(), HandleError>)
        ensures
            checked == (match self.access_error() {
                Some(error) => Err::<(), HandleError>(error),
                None => Ok::<(), HandleError>(()),
            }),
    {
        match self {
            HandleHost::DisposedIsolate => Err(HandleError::DisposedInstanceAccess),
            _ => Ok(()),
        }
    }

    /// The address of the instance that `self` names, if it names a live one,
    /// and why it names none otherwise.
    pub fn check_get_isolate(self) -> (checked: Result<usize, HandleError>)
        ensures
            checked == (match self {
                HandleHost::Isolate(address) => Ok::<usize, HandleError>(address),
                HandleHost::Scope => Err::<usize, HandleError>(HandleError::HostUnavailable),
                HandleHost::DisposedIsolate => Err::<usize, HandleError>(
                    HandleError::DisposedInstanceAccess,
                ),
            }),
    {
        match self {
            HandleHost::Isolate(ile) => Ok(ile),
            HandleHost::Scope => Err(HandleError::HostUnavailable),
            HandleHost::DisposedIsolate => Err(HandleError::DisposedInstanceAccess),
        }
    }

    /// The address of the instance that a live, known host names.
    pub fn get_isolate(self) -> (address: usize)
        requires
            self is Isolate,
        ensures
            HandleHost::Isolate(address) == self,
    {
        match self {
            HandleHost::Isolate(ile) => ile,
            _ => unreached(),
        }
    }

    /// A weak handle to the instance that a live, known host names.
    pub fn get_isolate_handle(self) -> (handle: IsolateHandle)
        requires
            self is Isolate,
        ensures
            HandleHost::Isolate(handle@) == self,
    {
        IsolateHandle::from_address(self.get_isolate())
    }
}

} // verus!
