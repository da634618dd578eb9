use vstd::prelude::*;
use crate::error::{Error, HResult};

verus! {

/// The services the cache holds. `Provider` is the root: every other one
/// is located through it.
#[derive(Clone, Copy, Debug, PartialEq, Eq, Structural)]
pub enum ServiceKind {
    Provider,
    Manager,
    ManagerInternal,
    NotificationService,
    PinnedApps,
    ViewCollection,
}

/// What the caller must do before a service can be handed out.
#[derive(Clone, Copy, Debug, PartialEq, Eq, Structural)]
pub enum CreationStep {
    /// The service is cached.
    Ready,
    /// Create the root provider first.
    CreateProvider,
    /// Locate this service through the cached provider.
    Locate(ServiceKind),
}

/// Per-thread cache of service handles: each slot is filled at most once,
/// on first demand, and only emptied by `teardown`.
pub struct ComObjects<H> {
    provider: Option<H>,
    manager: Option<H>,
    manager_internal: Option<H>,
    notification_service: Option<H>,
    pinned_apps: Option<H>,
    view_collection: Option<H>,
}

impl<H> ComObjects<H> {
    /// The handle cached for `k`, if any.
    pub closed spec fn slot(&self, k: ServiceKind) -> Option<H> {
        match k {
            ServiceKind::Provider => self.provider,
            ServiceKind::Manager => self.manager,
            ServiceKind::ManagerInternal => self.manager_internal,
            ServiceKind::NotificationService => self.notification_service,
            ServiceKind::PinnedApps => self.pinned_apps,
            ServiceKind::ViewCollection => self.view_collection,
        }
    }

    /// Slot `k2` after the outcome of creating `k` was handed in: a filled
    /// slot is never replaced; an empty `k` takes a non-null handle.
    pub open spec fn installed(&self, k: ServiceKind, outcome: Result<Option<H>, HResult>, k2: ServiceKind) -> Option<H> {
        if k2 != k || self.slot(k) is Some {
            self.slot(k2)
        } else {
            match outcome {
                Ok(Some(h)) => Some(h),
                _ => None,
            }
        }
    }

    /// What handing in that outcome returns.
    pub open spec fn install_result(&self, k: ServiceKind, outcome: Result<Option<H>, HResult>) -> Result<(), Error> {
        if self.slot(k) is Some {
            Ok(())
        } else {
            match outcome {
                Ok(Some(_)) => Ok(()),
                Ok(None) => Err(Error::ComAllocatedNullPtr),
                Err(_) => Err(Error::ServiceNotCreated),
            }
        }
    }

    /// The next step towards handing out `k`.
    pub open spec fn spec_next_step(&self, k: ServiceKind) -> CreationStep {
        if self.slot(k) is Some {
            CreationStep::Ready
        } else if self.slot(ServiceKind::Provider) is None {
            CreationStep::CreateProvider
        } else {
            CreationStep::Locate(k)
        }
    }

    /// An empty cache.
    pub fn new() -> (r: ComObjects<H>)
        ensures
            forall|k: ServiceKind| r.slot(k) is None,
    {
        ComObjects {
            provider: None,
            manager: None,
            manager_internal: None,
            notification_service: None,
            pinned_apps: None,
            view_collection: None,
        }
    }

    /// The handle cached for `k`, or `ServiceNotCreated`.
    pub fn get(&self, k: ServiceKind) -> (r: Result<&H, Error>)
        ensures
            match self.slot(k) {
                Some(h) => r == Ok::<&H, Error>(&h),
                None => r == Err::<&H, Error>(Error::ServiceNotCreated),
            },
    {
        let s = match k {
            ServiceKind::Provider => &self.provider,
            ServiceKind::Manager => &self.manager,
            ServiceKind::ManagerInternal => &self.manager_internal,
            ServiceKind::NotificationService => &self.notification_service,
            ServiceKind::PinnedApps => &self.pinned_apps,
            ServiceKind::ViewCollection => &self.view_collection,
        };
        match s {
            Some(h) => Ok(h),
            None => Err(Error::ServiceNotCreated),
        }
    }

    /// The next step towards handing out `k`: nothing once it is cached; the
    /// provider before any service located through it.
    pub fn next_step(&self, k: ServiceKind) -> (r: CreationStep)
        ensures
            r == self.spec_next_step(k),
    {
        if self.get(k).is_ok() {
            CreationStep::Ready
        } else if self.get(ServiceKind::Provider).is_err() {
            CreationStep::CreateProvider
        } else {
            CreationStep::Locate(k)
        }
    }

    /// Hands in the outcome of creating `k`: a failure code, a null
    /// handle, or a handle. A slot already filled keeps its handle.
    pub fn install(&mut self, k: ServiceKind, outcome: Result<Option<H>, HResult>) -> (r: Result<(), Error>)
        ensures
            forall|k2: ServiceKind| #[trigger] final(self).slot(k2) == old(self).installed(k, outcome, k2),
            r == old(self).install_result(k, outcome),
    {
        if self.get(k).is_ok() {
            return Ok(());
        }
        let h = match outcome {
            Ok(Some(h)) => h,
            Ok(None) => return Err(Error::ComAllocatedNullPtr),
            Err(_) => return Err(Error::ServiceNotCreated),
        };
        match k {
            ServiceKind::Provider => self.provider = Some(h),
            ServiceKind::Manager => self.manager = Some(h),
            ServiceKind::ManagerInternal => self.manager_internal = Some(h),
            ServiceKind::NotificationService => self.notification_service = Some(h),
            ServiceKind::PinnedApps => self.pinned_apps = Some(h),
            ServiceKind::ViewCollection => self.view_collection = Some(h),
        }
        Ok(())
    }

    /// Releases every handle: the services located through the provider
    /// first, the provider last.
    pub fn teardown(&mut self)
        ensures
            forall|k: ServiceKind| final(self).slot(k) is None,
    {
        self.manager = None;
        self.manager_internal = None;
        self.notification_service = None;
        self.pinned_apps = None;
        self.view_collection = None;
        self.provider = None;
    }
}

} // verus!
