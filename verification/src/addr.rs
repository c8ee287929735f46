//! Strong and weak actor handles.
//!
//! A handle is either detached, referring to no actor at all, or it names
//! the shared mailbox resource of one spawned actor. The resource is
//! identified by the actor's allocation identity together with the tag of
//! the concrete actor type behind it; the handle additionally carries a
//! facet tag, the declared capability view under which it addresses the
//! actor. Handles compare by the identity of the underlying resource
//! alone, never by their facet, and a detached handle's identity is a
//! sentinel distinct from every live actor.
//!
//! Upcasting rebinds a handle to a wider or narrower facet without
//! touching the resource it names; downcasting recovers a handle of a
//! concrete facet and fails, returning the original handle unchanged,
//! when the resource's concrete type does not match.

use vstd::prelude::*;

verus! {

use core::cmp::Ordering;

/// The shared resource a non-detached handle refers to: one actor's
/// mailbox, identified by allocation identity and concrete type tag.
#[derive(Debug, Clone, Copy, PartialEq, Eq, Structural)]
pub struct AddrCell {
    /// Allocation identity of the actor's mailbox resource.
    pub actor: u64,
    /// Tag of the concrete actor type the mailbox was spawned with.
    pub concrete: u64,
}

/// A strong reference to a spawned actor. Strong handles share ownership
/// of the mailbox resource: while one exists the exclusive channel stays
/// open. A detached strong handle refers to nothing and every operation
/// through it is a silent no-op.
#[derive(Debug, Clone, Copy)]
pub struct Addr {
    /// The resource this handle refers to, or `None` when detached.
    pub inner: Option<AddrCell>,
    /// The declared capability view this handle addresses the actor under.
    pub facet: u64,
}

/// A weak reference to a spawned actor: a non-owning observer that can be
/// upgraded to a strong handle while the actor's resource is still owned
/// by someone, and silently drops all work afterwards.
#[derive(Debug, Clone, Copy)]
pub struct WeakAddr {
    /// The resource this handle refers to, or `None` when detached.
    pub inner: Option<AddrCell>,
    /// The declared capability view this handle addresses the actor under.
    pub facet: u64,
}

impl Addr {
    /// The identity this handle compares by: the referenced actor's
    /// allocation identity, or the detached sentinel `None`.
    pub open spec fn spec_ptr(self) -> Option<u64> {
        match self.inner {
            Some(cell) => Some(cell.actor),
            None => None,
        }
    }

    /// A handle that refers to no actor.
    pub open spec fn is_detached(self) -> bool {
        self.inner is None
    }

    /// The detached strong handle.
    pub open spec fn spec_detached() -> Addr {
        Addr { inner: None, facet: 0 }
    }

    /// Create a strong handle which does not refer to any actor.
    pub fn detached() -> (r: Addr)
        ensures
            r == Addr::spec_detached(),
            r.is_detached(),
    {
        Addr { inner: None, facet: 0 }
    }

    /// The identity of the underlying resource, or `None` when detached.
    pub fn ptr(&self) -> (r: Option<u64>)
        ensures
            r == self.spec_ptr(),
    {
        match self.inner {
            Some(cell) => Some(cell.actor),
            None => None,
        }
    }

    /// The handle upcasting yields: same resource, new facet.
    pub open spec fn spec_upcast(self, facet: u64) -> Addr {
        Addr { inner: self.inner, facet }
    }

    /// Rebind this handle to another declared capability view. The
    /// underlying resource, and with it the handle's identity and the
    /// queue its work goes to, is exactly the one of the original handle.
    pub fn upcast(self, facet: u64) -> (r: Addr)
        ensures
            r == self.spec_upcast(facet),
            r.inner == self.inner,
            r.facet == facet,
            r.spec_ptr() == self.spec_ptr(),
    {
        Addr { inner: self.inner, facet }
    }

    /// Downgrade to a weak reference to the same resource.
    pub fn downgrade(&self) -> (w: WeakAddr)
        ensures
            w == self.spec_downgrade(),
    {
        WeakAddr { inner: self.inner, facet: self.facet }
    }

    /// The weak handle downgrading yields: same resource, same facet.
    pub open spec fn spec_downgrade(self) -> WeakAddr {
        WeakAddr { inner: self.inner, facet: self.facet }
    }

    /// What downcasting to the concrete type tag `concrete` yields.
    pub open spec fn spec_downcast(self, concrete: u64) -> Result<Addr, Addr> {
        match self.inner {
            None => Ok(Addr::spec_detached()),
            Some(cell) => if cell.concrete == concrete {
                Ok(Addr { inner: self.inner, facet: concrete })
            } else {
                Err(self)
            },
        }
    }

    /// Attempt to recover a handle of the concrete type tag `concrete`
    /// from this handle. Succeeds exactly when the underlying resource
    /// was spawned with that concrete type, preserving the identity; on a
    /// mismatch the original handle comes back unchanged. A detached
    /// handle downcasts trivially into a fresh detached handle.
    pub fn downcast(self, concrete: u64) -> (r: Result<Addr, Addr>)
        ensures
            r == self.spec_downcast(concrete),
            self.is_detached() ==> (r matches Ok(a) && a.is_detached()),
            (self.inner matches Some(cell) && cell.concrete == concrete) ==> (r matches Ok(a)
                && a.spec_ptr() == self.spec_ptr() && a.facet == concrete),
            (self.inner matches Some(cell) && cell.concrete != concrete) ==> r == Err::<
                Addr,
                Addr,
            >(self),
    {
        match self.inner {
            None => Ok(Addr::detached()),
            Some(cell) => if cell.concrete == concrete {
                Ok(Addr { inner: self.inner, facet: concrete })
            } else {
                Err(self)
            },
        }
    }
}

impl WeakAddr {
    /// The detached weak handle.
    pub open spec fn spec_detached() -> WeakAddr {
        WeakAddr { inner: None, facet: 0 }
    }

    /// A handle that refers to no actor.
    pub open spec fn is_detached(self) -> bool {
        self.inner is None
    }

    /// Create a weak handle which does not refer to any actor.
    pub fn detached() -> (r: WeakAddr)
        ensures
            r == WeakAddr::spec_detached(),
            r.is_detached(),
    {
        WeakAddr { inner: None, facet: 0 }
    }

    /// Rebind this weak handle to another declared capability view,
    /// keeping the underlying resource.
    pub fn upcast(self, facet: u64) -> (r: WeakAddr)
        ensures
            r.inner == self.inner,
            r.facet == facet,
    {
        WeakAddr { inner: self.inner, facet }
    }
}

/// The identity order on handles: detached sorts before every live
/// actor, and live actors sort by allocation identity.
pub open spec fn ptr_order(a: Option<u64>, b: Option<u64>) -> Ordering {
    match (a, b) {
        (Option::None, Option::None) => Ordering::Equal,
        (Option::None, Option::Some(_)) => Ordering::Less,
        (Option::Some(_), Option::None) => Ordering::Greater,
        (Option::Some(x), Option::Some(y)) => if x < y {
            Ordering::Less
        } else if x == y {
            Ordering::Equal
        } else {
            Ordering::Greater
        },
    }
}

impl PartialEq for Addr {
    /// Handles are equal exactly when they refer to the same underlying
    /// resource, whatever their facets; all detached handles are equal.
    fn eq(&self, other: &Addr) -> (r: bool)
        ensures
            r == (self.spec_ptr() == other.spec_ptr()),
    {
        match (self.inner, other.inner) {
            (Some(a), Some(b)) => a.actor == b.actor,
            (None, None) => true,
            _ => false,
        }
    }
}

impl vstd::std_specs::cmp::PartialEqSpecImpl for Addr {
    open spec fn obeys_eq_spec() -> bool {
        true
    }

    open spec fn eq_spec(&self, other: &Addr) -> bool {
        self.spec_ptr() == other.spec_ptr()
    }
}

impl Eq for Addr {

}

impl PartialOrd for Addr {
    /// Handles order by the identity of the underlying resource.
    fn partial_cmp(&self, other: &Addr) -> (r: Option<Ordering>)
        ensures
            r == Some(ptr_order(self.spec_ptr(), other.spec_ptr())),
    {
        match (self.inner, other.inner) {
            (None, None) => Some(Ordering::Equal),
            (None, Some(_)) => Some(Ordering::Less),
            (Some(_), None) => Some(Ordering::Greater),
            (Some(a), Some(b)) => if a.actor < b.actor {
                Some(Ordering::Less)
            } else if a.actor == b.actor {
                Some(Ordering::Equal)
            } else {
                Some(Ordering::Greater)
            },
        }
    }
}

impl vstd::std_specs::cmp::PartialOrdSpecImpl for Addr {
    open spec fn obeys_partial_cmp_spec() -> bool {
        true
    }

    open spec fn partial_cmp_spec(&self, other: &Addr) -> Option<Ordering> {
        Some(ptr_order(self.spec_ptr(), other.spec_ptr()))
    }
}

/// Upcast preserves identity: a handle rebound to any facet still refers
/// to the same resource, so it compares equal to the original.
pub proof fn lemma_upcast_preserves_identity(a: Addr, facet: u64)
    ensures
        a.spec_upcast(facet).spec_ptr() == a.spec_ptr(),
{
}

/// Upcast followed by downcast round-trips: rebinding a handle to some
/// facet and then downcasting to the concrete type tag it was spawned
/// with yields a handle equal to the original by identity; downcasting
/// to any other tag returns the upcast handle unchanged.
pub proof fn lemma_upcast_downcast_roundtrip(a: Addr, facet: u64, concrete: u64)
    requires
        a.inner matches Some(cell),
    ensures
        (a.inner matches Some(cell) && cell.concrete == concrete) ==> (a.spec_upcast(
            facet,
        ).spec_downcast(concrete) matches Ok(b) && b.spec_ptr() == a.spec_ptr()),
        (a.inner matches Some(cell) && cell.concrete != concrete) ==> a.spec_upcast(
            facet,
        ).spec_downcast(concrete) == Err::<Addr, Addr>(a.spec_upcast(facet)),
{
}

/// A detached handle downcasts trivially into a detached handle.
pub proof fn lemma_detached_downcast(concrete: u64)
    ensures
        Addr::spec_detached().spec_downcast(concrete) matches Ok(b) && b.is_detached(),
{
}

} // verus!
