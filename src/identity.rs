use vstd::prelude::*;
use crate::error::Error;

verus! {

/// A 128-bit desktop identifier, as its integer value.
#[derive(Clone, Copy, Debug, PartialEq, Eq, Structural)]
pub struct Guid(pub u128);

/// The first position at which `g` occurs in `ids`.
pub open spec fn is_first_position(ids: Seq<Guid>, g: Guid, i: int) -> bool {
    0 <= i < ids.len() && ids[i] == g && forall|j: int| 0 <= j < i ==> ids[j] != g
}

/// Where a linear scan of `ids` for `g` stops, if it finds it.
pub open spec fn position_of(ids: Seq<Guid>, g: Guid) -> Option<int> {
    if exists|i: int| is_first_position(ids, g, i) {
        Some(choose|i: int| is_first_position(ids, g, i))
    } else {
        None
    }
}

/// No identifier occurs twice.
pub open spec fn distinct(ids: Seq<Guid>) -> bool {
    forall|i: int, j: int| 0 <= i < ids.len() && 0 <= j < ids.len() && ids[i] == ids[j] ==> i == j
}

/// There is at most one first position.
pub proof fn lemma_first_position_unique(ids: Seq<Guid>, g: Guid, i: int, k: int)
    requires
        is_first_position(ids, g, i),
        is_first_position(ids, g, k),
    ensures
        i == k,
{
    if i < k {
        assert(ids[i] != g);
    } else if k < i {
        assert(ids[k] != g);
    }
}

/// A first position is what `position_of` picks.
pub proof fn lemma_position_of(ids: Seq<Guid>, g: Guid, i: int)
    requires
        is_first_position(ids, g, i),
    ensures
        position_of(ids, g) == Some(i),
{
    let k = choose|k: int| is_first_position(ids, g, k);
    lemma_first_position_unique(ids, g, i, k);
}

/// In a list of distinct identifiers, the position of the one at `i` is `i`.
pub proof fn lemma_position_of_distinct(ids: Seq<Guid>, i: int)
    requires
        distinct(ids),
        0 <= i < ids.len(),
    ensures
        position_of(ids, ids[i]) == Some(i),
{
    assert(is_first_position(ids, ids[i], i));
    lemma_position_of(ids, ids[i], i);
}

/// The desktops of a session in enumeration order, read at one instant.
/// Positions are what `Index` refers to; the list says nothing of later
/// changes made elsewhere.
pub struct DesktopList {
    ids: Vec<Guid>,
}

impl View for DesktopList {
    type V = Seq<Guid>;

    closed spec fn view(&self) -> Seq<Guid> {
        self.ids@
    }
}

impl DesktopList {
    /// Positions are `u32` on the service's side.
    pub open spec fn wf(&self) -> bool {
        self@.len() <= u32::MAX
    }

    pub fn from_ids(ids: Vec<Guid>) -> (r: DesktopList)
        requires
            ids@.len() <= u32::MAX,
        ensures
            r@ == ids@,
            r.wf(),
    {
        DesktopList { ids }
    }

    pub fn len(&self) -> (r: u32)
        requires
            self.wf(),
        ensures
            r == self@.len(),
    {
        self.ids.len() as u32
    }

    pub fn at(&self, i: u32) -> (r: Guid)
        requires
            i < self@.len(),
        ensures
            r == self@[i as int],
    {
        self.ids[i as usize]
    }

    pub fn get(&self, i: u32) -> (r: Option<Guid>)
        ensures
            r == (if i < self@.len() { Some(self@[i as int]) } else { None::<Guid> }),
    {
        if (i as usize) < self.ids.len() {
            Some(self.ids[i as usize])
        } else {
            None
        }
    }

    /// Whether no identifier occurs twice, as the service guarantees.
    pub fn all_distinct(&self) -> (r: bool)
        ensures
            r == distinct(self@),
    {
        let n = self.ids.len();
        let mut i: usize = 0;
        while i < n
            invariant
                n == self@.len(),
                i <= n,
                forall|a: int, b: int| 0 <= a < i && 0 <= b < n && a != b ==> self@[a] != self@[b],
            decreases n - i,
        {
            let mut j: usize = 0;
            while j < n
                invariant
                    n == self@.len(),
                    i < n,
                    j <= n,
                    forall|a: int, b: int| 0 <= a < i && 0 <= b < n && a != b ==> self@[a] != self@[b],
                    forall|b: int| 0 <= b < j && b != i ==> self@[i as int] != self@[b],
                decreases n - j,
            {
                if j != i && self.ids[i] == self.ids[j] {
                    assert(!distinct(self@)) by {
                        assert(self@[i as int] == self@[j as int]);
                    }
                    return false;
                }
                j = j + 1;
            }
            i = i + 1;
        }
        true
    }

    /// Linear scan for `g`; the first match wins.
    pub fn position(&self, g: Guid) -> (r: Option<u32>)
        requires
            self.wf(),
        ensures
            r matches Some(i) ==> position_of(self@, g) == Some(i as int),
            r is None ==> position_of(self@, g) is None && !self@.contains(g),
    {
        let mut i: usize = 0;
        while i < self.ids.len()
            invariant
                i <= self.ids@.len() <= u32::MAX,
                forall|j: int| 0 <= j < i ==> self.ids@[j] != g,
            decreases self.ids@.len() - i,
        {
            if self.ids[i] == g {
                proof {
                    assert(is_first_position(self@, g, i as int));
                    lemma_position_of(self@, g, i as int);
                }
                return Some(i as u32);
            }
            i = i + 1;
        }
        proof {
            assert(!self@.contains(g));
            assert(!exists|k: int| is_first_position(self@, g, k)) by {
                assert forall|k: int| !is_first_position(self@, g, k) by {
                    if 0 <= k < self@.len() {
                        assert(self.ids@[k] != g);
                    }
                }
            }
        }
        None
    }
}

/// A desktop reference: by position, by identifier, or by both as an
/// enumeration reports them.
#[derive(Clone, Copy, Debug, PartialEq, Eq, Structural)]
pub enum DesktopInternal {
    Index(u32),
    Guid(Guid),
    IndexGuid(u32, Guid),
}

impl DesktopInternal {
    /// The identifier of the reference, read from `ids` for a bare position.
    pub open spec fn spec_id(self, ids: Seq<Guid>) -> Result<Guid, Error> {
        match self {
            DesktopInternal::Index(i) => if i < ids.len() {
                Ok(ids[i as int])
            } else {
                Err(Error::DesktopNotFound)
            },
            DesktopInternal::Guid(g) => Ok(g),
            DesktopInternal::IndexGuid(_, g) => Ok(g),
        }
    }

    /// The desktop a service call is issued to: a position must be in range,
    /// an identifier must be found.
    pub open spec fn spec_handle(self, ids: Seq<Guid>) -> Result<Guid, Error> {
        match self {
            DesktopInternal::Index(i) => if i < ids.len() {
                Ok(ids[i as int])
            } else {
                Err(Error::DesktopNotFound)
            },
            DesktopInternal::Guid(g) => if ids.contains(g) {
                Ok(g)
            } else {
                Err(Error::DesktopNotFound)
            },
            DesktopInternal::IndexGuid(_, g) => if ids.contains(g) {
                Ok(g)
            } else {
                Err(Error::DesktopNotFound)
            },
        }
    }

    /// The position of the reference: known for `Index` and `IndexGuid`,
    /// found by a scan for `Guid`.
    pub open spec fn spec_index(self, ids: Seq<Guid>) -> Result<u32, Error> {
        match self {
            DesktopInternal::Index(i) => Ok(i),
            DesktopInternal::IndexGuid(i, _) => Ok(i),
            DesktopInternal::Guid(g) => match position_of(ids, g) {
                Some(p) => Ok(p as u32),
                None => Err(Error::DesktopNotFound),
            },
        }
    }

    /// Comparison: structural where both sides carry a comparable field,
    /// else by the identifiers both resolve to.
    pub open spec fn spec_eq(self, other: DesktopInternal, ids: Seq<Guid>) -> Result<bool, Error> {
        match (self, other) {
            (DesktopInternal::Index(a), DesktopInternal::Index(b)) => Ok(a == b),
            (DesktopInternal::Guid(a), DesktopInternal::Guid(b)) => Ok(a == b),
            (DesktopInternal::IndexGuid(a, b), DesktopInternal::IndexGuid(c, d)) => Ok(a == c && b == d),
            (DesktopInternal::Index(a), DesktopInternal::IndexGuid(b, _)) => Ok(a == b),
            (DesktopInternal::IndexGuid(a, _), DesktopInternal::Index(b)) => Ok(a == b),
            (DesktopInternal::Guid(a), DesktopInternal::IndexGuid(_, b)) => Ok(a == b),
            (DesktopInternal::IndexGuid(_, a), DesktopInternal::Guid(b)) => Ok(a == b),
            _ => match (self.spec_id(ids), other.spec_id(ids)) {
                (Ok(x), Ok(y)) => Ok(x == y),
                (Err(e), _) => Err(e),
                (_, Err(e)) => Err(e),
            },
        }
    }

    /// The reference names a desktop of `ids`, and its two fields agree
    /// where it carries both.
    pub open spec fn consistent(self, ids: Seq<Guid>) -> bool {
        match self {
            DesktopInternal::Index(i) => i < ids.len(),
            DesktopInternal::Guid(g) => ids.contains(g),
            DesktopInternal::IndexGuid(i, g) => i < ids.len() && ids[i as int] == g,
        }
    }

    /// The resolved desktop as an enumeration would report it: its
    /// identifier, and its position found by a fresh scan.
    pub open spec fn spec_locate(self, ids: Seq<Guid>) -> Result<DesktopInternal, Error> {
        match self.spec_handle(ids) {
            Ok(g) => match position_of(ids, g) {
                Some(p) => Ok(DesktopInternal::IndexGuid(p as u32, g)),
                None => Err(Error::DesktopNotFound),
            },
            Err(e) => Err(e),
        }
    }

    /// Resolves the reference to its desktop and reports it with both its
    /// position and its identifier.
    pub fn locate(&self, ids: &DesktopList) -> (r: Result<DesktopInternal, Error>)
        requires
            ids.wf(),
        ensures
            r == self.spec_locate(ids@),
    {
        let g = self.get_handle(ids)?;
        match ids.position(g) {
            Some(p) => Ok(DesktopInternal::IndexGuid(p, g)),
            None => Err(Error::DesktopNotFound),
        }
    }

    /// Identifier of the desktop; a bare position is looked up in `ids`.
    pub fn get_id(&self, ids: &DesktopList) -> (r: Result<Guid, Error>)
        ensures
            r == self.spec_id(ids@),
    {
        match self {
            DesktopInternal::Index(i) => match ids.get(*i) {
                Some(g) => Ok(g),
                None => Err(Error::DesktopNotFound),
            },
            DesktopInternal::Guid(g) => Ok(*g),
            DesktopInternal::IndexGuid(_, g) => Ok(*g),
        }
    }

    /// The desktop that a service call on this reference goes to.
    pub fn get_handle(&self, ids: &DesktopList) -> (r: Result<Guid, Error>)
        requires
            ids.wf(),
        ensures
            r == self.spec_handle(ids@),
    {
        match self {
            DesktopInternal::Index(i) => match ids.get(*i) {
                Some(g) => Ok(g),
                None => Err(Error::DesktopNotFound),
            },
            DesktopInternal::Guid(g) => find(ids, *g),
            DesktopInternal::IndexGuid(_, g) => find(ids, *g),
        }
    }

    /// Position of the desktop; an identifier alone is scanned for.
    pub fn get_index(&self, ids: &DesktopList) -> (r: Result<u32, Error>)
        requires
            ids.wf(),
        ensures
            r == self.spec_index(ids@),
    {
        match self {
            DesktopInternal::Index(i) => Ok(*i),
            DesktopInternal::IndexGuid(i, _) => Ok(*i),
            DesktopInternal::Guid(g) => match ids.position(*g) {
                Some(p) => Ok(p),
                None => Err(Error::DesktopNotFound),
            },
        }
    }

    /// Whether two references name the same desktop; resolves through `ids`
    /// only where no field answers it.
    pub fn try_eq(&self, other: &Self, ids: &DesktopList) -> (r: Result<bool, Error>)
        ensures
            r == self.spec_eq(*other, ids@),
    {
        match (self, other) {
            (DesktopInternal::Index(a), DesktopInternal::Index(b)) => Ok(*a == *b),
            (DesktopInternal::Guid(a), DesktopInternal::Guid(b)) => Ok(*a == *b),
            (DesktopInternal::IndexGuid(a, b), DesktopInternal::IndexGuid(c, d)) => Ok(*a == *c && *b == *d),
            (DesktopInternal::Index(a), DesktopInternal::IndexGuid(b, _)) => Ok(*a == *b),
            (DesktopInternal::IndexGuid(a, _), DesktopInternal::Index(b)) => Ok(*a == *b),
            (DesktopInternal::Guid(a), DesktopInternal::IndexGuid(_, b)) => Ok(*a == *b),
            (DesktopInternal::IndexGuid(_, a), DesktopInternal::Guid(b)) => Ok(*a == *b),
            _ => {
                let x = self.get_id(ids)?;
                let y = other.get_id(ids)?;
                Ok(x == y)
            },
        }
    }
}

/// Find-by-identifier: `g` itself when the session has it.
fn find(ids: &DesktopList, g: Guid) -> (r: Result<Guid, Error>)
    requires
        ids.wf(),
    ensures
        r == (if ids@.contains(g) { Ok(g) } else { Err::<Guid, Error>(Error::DesktopNotFound) }),
{
    match ids.position(g) {
        Some(i) => {
            proof {
                assert(is_first_position(ids@, g, i as int));
            }
            Ok(g)
        },
        None => Err(Error::DesktopNotFound),
    }
}

} // verus!
