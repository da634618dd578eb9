use vstd::prelude::*;
use crate::desktop::enumeration;
use crate::error::{Error, HResult};
use crate::identity::{distinct, lemma_position_of_distinct, DesktopInternal, Guid};
use crate::registry::{ComObjects, CreationStep, ServiceKind};

verus! {

/// Locating a desktop and then asking the located reference for its
/// position gives the position the original reference resolves to, as long
/// as the enumeration did not change in between.
pub proof fn lemma_locate_keeps_index(ids: Seq<Guid>, d: DesktopInternal)
    requires
        distinct(ids),
        ids.len() <= u32::MAX,
        d.consistent(ids),
    ensures
        d.spec_locate(ids) matches Ok(l) && l.spec_index(ids) == d.spec_index(ids),
{
    match d {
        DesktopInternal::Index(i) => {
            lemma_position_of_distinct(ids, i as int);
        },
        DesktopInternal::Guid(g) => {
            let i = choose|i: int| 0 <= i < ids.len() && ids[i] == g;
            lemma_position_of_distinct(ids, i);
        },
        DesktopInternal::IndexGuid(i, g) => {
            lemma_position_of_distinct(ids, i as int);
        },
    }
}

/// Two references that each name a desktop of the enumeration compare
/// equal exactly when they name the same desktop, whatever forms they take.
pub proof fn lemma_eq_iff_same_desktop(ids: Seq<Guid>, a: DesktopInternal, b: DesktopInternal)
    requires
        distinct(ids),
        a.consistent(ids),
        b.consistent(ids),
    ensures
        a.spec_eq(b, ids) == Ok::<bool, Error>(a.spec_id(ids) == b.spec_id(ids)),
{
}

/// The count of desktops is the length of the enumeration.
pub proof fn lemma_count_is_enumeration_length(ids: Seq<Guid>)
    ensures
        enumeration(ids).len() == ids.len(),
{
}

/// Switching to the desktop reported as current targets that same desktop.
pub proof fn lemma_switch_to_current_targets_current(ids: Seq<Guid>, current: Guid)
    requires
        ids.contains(current),
    ensures
        DesktopInternal::Guid(current).spec_handle(ids) == Ok::<Guid, Error>(current),
{
}

/// A cached service stays as it is, whatever outcome of a creation is
/// handed in afterwards, and is handed out without creating anything.
pub proof fn lemma_cached_service_kept<H>(
    objects: ComObjects<H>,
    k: ServiceKind,
    outcome: Result<Option<H>, HResult>,
    cached: ServiceKind,
)
    requires
        objects.slot(cached) is Some,
    ensures
        objects.installed(k, outcome, cached) == objects.slot(cached),
        objects.spec_next_step(cached) == CreationStep::Ready,
{
}

} // verus!
