use vstd::prelude::*;
use crate::error::Error;
use crate::registry::{ComObjects, ServiceKind};

verus! {

/// Where a thread's apartment scope stands.
#[derive(Clone, Copy, Debug, PartialEq, Eq, Structural)]
pub enum ScopeState {
    Uninitialized,
    Active,
    Released,
}

/// The calling thread's eligibility to use the desktop service.
///
/// Entering takes a process-wide usage token, then initializes the thread's
/// apartment. Releasing tears the apartment down and keeps the token: it is
/// held until the process ends, because giving it back while thread-local
/// state is being dropped faults in the runtime. A leaked token only keeps
/// the runtime loaded, which the process needs anyway.
pub struct ExecutionScope {
    state: ScopeState,
    tokens_taken: u64,
}

impl ExecutionScope {
    pub closed spec fn spec_state(&self) -> ScopeState {
        self.state
    }

    /// Usage tokens this scope has taken (never given back).
    pub closed spec fn spec_tokens(&self) -> nat {
        self.tokens_taken as nat
    }

    pub fn new() -> (r: ExecutionScope)
        ensures
            r.spec_state() == ScopeState::Uninitialized,
            r.spec_tokens() == 0,
    {
        ExecutionScope { state: ScopeState::Uninitialized, tokens_taken: 0 }
    }

    pub fn state(&self) -> (r: ScopeState)
        ensures
            r == self.spec_state(),
    {
        self.state
    }

    /// Records entry: allowed once, from `Uninitialized`. `Ok` means the
    /// caller takes the usage token and then initializes the apartment.
    pub fn enter(&mut self) -> (r: Result<(), Error>)
        ensures
            old(self).spec_state() == ScopeState::Uninitialized ==> r is Ok
                && final(self).spec_state() == ScopeState::Active
                && final(self).spec_tokens() == 1,
            old(self).spec_state() != ScopeState::Uninitialized ==> r == Err::<(), Error>(Error::ServiceNotCreated)
                && *final(self) == *old(self),
    {
        match self.state {
            ScopeState::Uninitialized => {
                self.state = ScopeState::Active;
                self.tokens_taken = 1;
                Ok(())
            },
            _ => Err(Error::ServiceNotCreated),
        }
    }

    /// Records release: allowed once, from `Active`, and only after every
    /// handle obtained under the scope was torn down. `Ok` means the caller
    /// tears the apartment down.
    pub fn release<H>(&mut self, objects: &ComObjects<H>) -> (r: Result<(), Error>)
        ensures
            (old(self).spec_state() == ScopeState::Active && forall|k: ServiceKind| objects.slot(k) is None)
                ==> r is Ok && final(self).spec_state() == ScopeState::Released
                    && final(self).spec_tokens() == old(self).spec_tokens(),
            !(old(self).spec_state() == ScopeState::Active && forall|k: ServiceKind| objects.slot(k) is None)
                ==> r == Err::<(), Error>(Error::ServiceNotCreated) && *final(self) == *old(self),
    {
        if self.state != ScopeState::Active {
            return Err(Error::ServiceNotCreated);
        }
        if objects.get(ServiceKind::Provider).is_ok() || objects.get(ServiceKind::Manager).is_ok()
            || objects.get(ServiceKind::ManagerInternal).is_ok()
            || objects.get(ServiceKind::NotificationService).is_ok()
            || objects.get(ServiceKind::PinnedApps).is_ok()
            || objects.get(ServiceKind::ViewCollection).is_ok() {
            return Err(Error::ServiceNotCreated);
        }
        proof {
            assert forall|k: ServiceKind| objects.slot(k) is None by {
                match k {
                    ServiceKind::Provider => {},
                    ServiceKind::Manager => {},
                    ServiceKind::ManagerInternal => {},
                    ServiceKind::NotificationService => {},
                    ServiceKind::PinnedApps => {},
                    ServiceKind::ViewCollection => {},
                }
            }
        }
        self.state = ScopeState::Released;
        Ok(())
    }
}

} // verus!
