use vstd::prelude::*;
use crate::error::{map_window_error, Error, HResult};
use crate::identity::{position_of, DesktopInternal, DesktopList, Guid};

verus! {

/// A desktop as callers hold it.
#[derive(Clone, Copy, Debug, PartialEq, Eq, Structural)]
pub struct DesktopTest(pub DesktopInternal);

impl From<u32> for DesktopTest {
    fn from(index: u32) -> (r: DesktopTest)
        ensures
            r == DesktopTest(DesktopInternal::Index(index)),
    {
        DesktopTest(DesktopInternal::Index(index))
    }
}

impl vstd::std_specs::convert::FromSpecImpl<u32> for DesktopTest {
    open spec fn obeys_from_spec() -> bool {
        true
    }

    open spec fn from_spec(v: u32) -> DesktopTest {
        DesktopTest(DesktopInternal::Index(v))
    }
}

impl From<Guid> for DesktopTest {
    fn from(guid: Guid) -> (r: DesktopTest)
        ensures
            r == DesktopTest(DesktopInternal::Guid(guid)),
    {
        DesktopTest(DesktopInternal::Guid(guid))
    }
}

impl vstd::std_specs::convert::FromSpecImpl<Guid> for DesktopTest {
    open spec fn obeys_from_spec() -> bool {
        true
    }

    open spec fn from_spec(v: Guid) -> DesktopTest {
        DesktopTest(DesktopInternal::Guid(v))
    }
}

/// The single service call that an operation comes down to, with the
/// desktops it was resolved to. The caller issues it.
#[derive(Clone, Debug)]
pub enum Relay {
    Switch(Guid),
    Remove { desktop: Guid, fallback: Guid },
    MoveView(Guid),
    ReadName(Guid),
    WriteName(Guid, String),
    ReadWallpaper(Guid),
    WriteWallpaper(Guid, String),
}

impl DesktopTest {
    /// Identifier of the desktop.
    pub fn get_id(&self, ids: &DesktopList) -> (r: Result<Guid, Error>)
        ensures
            r == self.0.spec_id(ids@),
    {
        self.0.get_id(ids)
    }

    /// Position of the desktop.
    pub fn get_index(&self, ids: &DesktopList) -> (r: Result<u32, Error>)
        requires
            ids.wf(),
        ensures
            r == self.0.spec_index(ids@),
    {
        self.0.get_index(ids)
    }

    /// The call that reads the desktop's name.
    pub fn get_name(&self, ids: &DesktopList) -> (r: Result<Relay, Error>)
        requires
            ids.wf(),
        ensures
            match self.0.spec_handle(ids@) {
                Ok(g) => r matches Ok(Relay::ReadName(h)) && h == g,
                Err(e) => r == Err::<Relay, Error>(e),
            },
    {
        let g = self.0.get_handle(ids)?;
        Ok(Relay::ReadName(g))
    }

    /// The call that renames the desktop.
    pub fn set_name(&self, ids: &DesktopList, name: &str) -> (r: Result<Relay, Error>)
        requires
            ids.wf(),
        ensures
            match self.0.spec_handle(ids@) {
                Ok(g) => r matches Ok(Relay::WriteName(h, n)) && h == g && n@ == name@,
                Err(e) => r == Err::<Relay, Error>(e),
            },
    {
        let g = self.0.get_handle(ids)?;
        Ok(Relay::WriteName(g, name.to_string()))
    }

    /// The call that reads the desktop's wallpaper path.
    pub fn get_wallpaper(&self, ids: &DesktopList) -> (r: Result<Relay, Error>)
        requires
            ids.wf(),
        ensures
            match self.0.spec_handle(ids@) {
                Ok(g) => r matches Ok(Relay::ReadWallpaper(h)) && h == g,
                Err(e) => r == Err::<Relay, Error>(e),
            },
    {
        let g = self.0.get_handle(ids)?;
        Ok(Relay::ReadWallpaper(g))
    }

    /// The call that sets the desktop's wallpaper path.
    pub fn set_wallpaper(&self, ids: &DesktopList, path: &str) -> (r: Result<Relay, Error>)
        requires
            ids.wf(),
        ensures
            match self.0.spec_handle(ids@) {
                Ok(g) => r matches Ok(Relay::WriteWallpaper(h, p)) && h == g && p@ == path@,
                Err(e) => r == Err::<Relay, Error>(e),
            },
    {
        let g = self.0.get_handle(ids)?;
        Ok(Relay::WriteWallpaper(g, path.to_string()))
    }
}

/// The reference itself, as given.
pub fn get_desktop(desktop: DesktopTest) -> (r: DesktopTest)
    ensures
        r == desktop,
{
    desktop
}

/// Switching goes to the resolved desktop; no fallback.
pub fn switch_desktop(ids: &DesktopList, desktop: DesktopTest) -> (r: Result<Relay, Error>)
    requires
        ids.wf(),
    ensures
        match desktop.0.spec_handle(ids@) {
            Ok(g) => r matches Ok(Relay::Switch(h)) && h == g,
            Err(e) => r == Err::<Relay, Error>(e),
        },
{
    let g = desktop.0.get_handle(ids)?;
    Ok(Relay::Switch(g))
}

/// Both desktops are resolved before anything is removed. Removal is refused
/// when either does not resolve or when the fallback is the desktop itself.
pub fn remove_desktop(ids: &DesktopList, desktop: DesktopTest, fallback_desktop: DesktopTest) -> (r:
    Result<Relay, Error>)
    requires
        ids.wf(),
    ensures
        match (desktop.0.spec_handle(ids@), fallback_desktop.0.spec_handle(ids@)) {
            (Ok(a), Ok(b)) => if a == b {
                r == Err::<Relay, Error>(Error::RemoveDesktopFailed)
            } else {
                r matches Ok(Relay::Remove { desktop: x, fallback: y }) && x == a && y == b
            },
            _ => r == Err::<Relay, Error>(Error::RemoveDesktopFailed),
        },
        desktop == fallback_desktop ==> r == Err::<Relay, Error>(Error::RemoveDesktopFailed),
{
    let a = match desktop.0.get_handle(ids) {
        Ok(g) => g,
        Err(_) => return Err(Error::RemoveDesktopFailed),
    };
    let b = match fallback_desktop.0.get_handle(ids) {
        Ok(g) => g,
        Err(_) => return Err(Error::RemoveDesktopFailed),
    };
    if a == b {
        Err(Error::RemoveDesktopFailed)
    } else {
        Ok(Relay::Remove { desktop: a, fallback: b })
    }
}

/// Whether the window is on `desktop`, given where the window lookup
/// (`get_desktop_by_window`) placed it. A window or desktop that cannot be
/// found is not on the desktop; other failures pass through.
pub fn is_window_on_desktop(
    ids: &DesktopList,
    desktop: DesktopTest,
    window_desktop: Result<DesktopTest, Error>,
) -> (r: Result<bool, Error>)
    ensures
        r == match window_desktop {
            Ok(w) => match w.0.spec_eq(desktop.0, ids@) {
                Ok(b) => Ok(b),
                Err(_) => Ok(false),
            },
            Err(Error::WindowNotFound) => Ok(false),
            Err(Error::DesktopNotFound) => Ok(false),
            Err(e) => Err(e),
        },
{
    match window_desktop {
        Ok(w) => match w.0.try_eq(&desktop.0, ids) {
            Ok(b) => Ok(b),
            Err(_) => Ok(false),
        },
        Err(Error::WindowNotFound) => Ok(false),
        Err(Error::DesktopNotFound) => Ok(false),
        Err(e) => Err(e),
    }
}

/// The view of a window, from the view lookup's status and result: a
/// failure code passes through, no view means no such window.
pub fn view_for_window<V>(hr: HResult, view: Option<V>) -> (r: Result<V, Error>)
    ensures
        hr.spec_failed() ==> r == Err::<V, Error>(Error::ComError(hr)),
        !hr.spec_failed() ==> r == match view {
            Some(v) => Ok(v),
            None => Err(Error::WindowNotFound),
        },
{
    hr.as_result()?;
    match view {
        Some(v) => Ok(v),
        None => Err(Error::WindowNotFound),
    }
}

/// Moving a window's view goes to the resolved desktop; the view is looked
/// up independently (`view_for_window`).
pub fn move_window_to_desktop(ids: &DesktopList, desktop: DesktopTest) -> (r: Result<Relay, Error>)
    requires
        ids.wf(),
    ensures
        match desktop.0.spec_handle(ids@) {
            Ok(g) => r matches Ok(Relay::MoveView(h)) && h == g,
            Err(e) => r == Err::<Relay, Error>(e),
        },
{
    let g = desktop.0.get_handle(ids)?;
    Ok(Relay::MoveView(g))
}

/// The new desktop, from the creation call's outcome and the enumeration
/// read after it: its position is found by a fresh scan.
pub fn create_desktop(created: Result<Option<Guid>, HResult>, ids_after: &DesktopList) -> (r: Result<
    DesktopTest,
    Error,
>)
    requires
        ids_after.wf(),
    ensures
        r == match created {
            Err(_) => Err(Error::CreateDesktopFailed),
            Ok(None) => Err(Error::ComAllocatedNullPtr),
            Ok(Some(g)) => match position_of(ids_after@, g) {
                Some(i) => Ok(DesktopTest(DesktopInternal::IndexGuid(i as u32, g))),
                None => Err(Error::DesktopNotFound),
            },
        },
{
    match created {
        Err(_) => Err(Error::CreateDesktopFailed),
        Ok(None) => Err(Error::ComAllocatedNullPtr),
        Ok(Some(g)) => match ids_after.position(g) {
            Some(i) => Ok(DesktopTest(DesktopInternal::IndexGuid(i, g))),
            None => Err(Error::DesktopNotFound),
        },
    }
}

/// The current desktop, by identifier, from the service's answer.
pub fn get_current_desktop(current: Result<Option<Guid>, HResult>) -> (r: Result<DesktopTest, Error>)
    ensures
        r == match current {
            Err(hr) => Err(Error::ComError(hr)),
            Ok(None) => Err(Error::ComAllocatedNullPtr),
            Ok(Some(g)) => Ok(DesktopTest(DesktopInternal::Guid(g))),
        },
{
    match current {
        Err(hr) => Err(Error::ComError(hr)),
        Ok(None) => Err(Error::ComAllocatedNullPtr),
        Ok(Some(g)) => Ok(DesktopTest(DesktopInternal::Guid(g))),
    }
}

/// The enumeration as references: each desktop with its position and
/// identifier.
pub open spec fn enumeration(ids: Seq<Guid>) -> Seq<DesktopTest> {
    Seq::new(ids.len(), |i: int| DesktopTest(DesktopInternal::IndexGuid(i as u32, ids[i])))
}

/// Every desktop of the enumeration, with its position and identifier.
pub fn get_desktops(ids: &DesktopList) -> (r: Vec<DesktopTest>)
    requires
        ids.wf(),
    ensures
        r@ == enumeration(ids@),
{
    let n = ids.len();
    let mut result: Vec<DesktopTest> = Vec::new();
    let mut i: u32 = 0;
    while i < n
        invariant
            n == ids@.len(),
            i <= n,
            result@.len() == i,
            forall|j: int|
                0 <= j < i ==> result@[j] == DesktopTest(DesktopInternal::IndexGuid(j as u32, ids@[j])),
        decreases n - i,
    {
        let g = ids.at(i);
        result.push(DesktopTest(DesktopInternal::IndexGuid(i, g)));
        i = i + 1;
    }
    assert(result@ =~= enumeration(ids@));
    result
}

/// The desktop a window is on, from the lookup's status and identifier: a
/// missing window is `WindowNotFound`, the all-zero identifier
/// `DesktopNotFound`.
pub fn get_desktop_by_window(hr: HResult, found: Guid) -> (r: Result<DesktopTest, Error>)
    ensures
        r == (if hr.spec_failed() {
            Err(if hr.0 == crate::error::ELEMENT_NOT_FOUND {
                Error::WindowNotFound
            } else {
                Error::ComError(hr)
            })
        } else if found.0 == 0 {
            Err(Error::DesktopNotFound)
        } else {
            Ok(DesktopTest(DesktopInternal::Guid(found)))
        }),
{
    if hr.failed() {
        return Err(map_window_error(hr));
    }
    if found.0 == 0 {
        return Err(Error::DesktopNotFound);
    }
    Ok(DesktopTest(DesktopInternal::Guid(found)))
}

/// Whether a window is on the current desktop, from the lookup's status and
/// answer.
pub fn is_window_on_current_desktop(hr: HResult, value: bool) -> (r: Result<bool, Error>)
    ensures
        r == (if hr.spec_failed() {
            Err(if hr.0 == crate::error::ELEMENT_NOT_FOUND {
                Error::WindowNotFound
            } else {
                Error::ComError(hr)
            })
        } else {
            Ok(value)
        }),
{
    if hr.failed() {
        Err(map_window_error(hr))
    } else {
        Ok(value)
    }
}

/// Number of desktops in the enumeration.
pub fn get_desktop_count(ids: &DesktopList) -> (r: u32)
    requires
        ids.wf(),
    ensures
        r == ids@.len(),
{
    ids.len()
}

/// A desktop's identifier, from the status of the call that read it.
pub fn get_idesktop_guid(hr: HResult, id: Guid) -> (r: Result<Guid, Error>)
    ensures
        r == (if hr.spec_failed() { Err(Error::ComError(hr)) } else { Ok(id) }),
{
    hr.as_result()?;
    Ok(id)
}

} // verus!
