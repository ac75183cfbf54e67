//! The model of one interface instance: its address, the interface kinds it
//! implements, and the reference count it keeps for the acquire/release/query
//! protocol. A count that reaches zero means the object has torn itself down;
//! teardown itself is the object's own business, not the handle's.

use vstd::prelude::*;

use crate::errors::ComError;
use crate::iface::contains_iid;
use crate::iface::InterfaceKind;
use crate::iface::IID_UNKNOWN;

verus! {

/// The reference count after one acquire.
pub open spec fn count_after_acquire(count: int) -> int {
    count + 1
}

/// The reference count after one release.
pub open spec fn count_after_release(count: int) -> int {
    count - 1
}

/// Whether two object states are the same instance with the same contracts:
/// the same address and the same implemented kinds. Every operation of the
/// protocol preserves this; only the count and the call tallies move.
pub open spec fn same_identity(a: ComObject, b: ComObject) -> bool {
    &&& a.spec_addr() == b.spec_addr()
    &&& forall|i: u64| a.spec_implements(i) == b.spec_implements(i)
}

/// One reference-counted interface instance, as the host component system
/// would present it behind a pointer.
#[derive(Debug)]
pub struct ComObject {
    addr: usize,
    ref_count: u64,
    acquire_calls: u64,
    release_calls: u64,
    iids: Vec<u64>,
}

impl ComObject {
    /// The non-null address under which the instance is reached.
    pub closed spec fn spec_addr(&self) -> usize {
        self.addr
    }

    /// The current reference count.
    pub closed spec fn spec_ref_count(&self) -> u64 {
        self.ref_count
    }

    /// How many times the acquire operation has run on this instance.
    pub closed spec fn spec_acquire_calls(&self) -> u64 {
        self.acquire_calls
    }

    /// How many times the release operation has run on this instance.
    pub closed spec fn spec_release_calls(&self) -> u64 {
        self.release_calls
    }

    /// Whether the instance implements the interface kind `iid`.
    pub closed spec fn spec_implements(&self, iid: u64) -> bool {
        self.iids@.contains(iid)
    }

    /// A well-formed instance sits at a non-null address and implements the
    /// base identity kind.
    pub open spec fn wf(&self) -> bool {
        &&& self.spec_addr() != 0
        &&& self.spec_implements(IID_UNKNOWN)
    }

    /// Whether the instance implements everything the kind `kind` declares,
    /// so that a query for `kind` is answered with a reference.
    pub open spec fn spec_supports(&self, kind: &InterfaceKind) -> bool {
        forall|i: u64| kind.spec_declares(i) ==> self.spec_implements(i)
    }

    /// Models a creation call of the host component system: the new instance
    /// starts with a reference count of one, owed to the caller, and
    /// implements the listed kinds along with the base identity kind. The
    /// null address is rejected.
    pub fn create(addr: usize, implemented: Vec<u64>) -> (r: Result<ComObject, ComError>)
        ensures
            addr == 0 <==> r is Err,
            r matches Err(e) ==> e == ComError::InvalidArgument,
            r matches Ok(o) ==> {
                &&& o.wf()
                &&& o.spec_addr() == addr
                &&& o.spec_ref_count() == 1
                &&& o.spec_acquire_calls() == 0
                &&& o.spec_release_calls() == 0
                &&& forall|i: u64|
                    o.spec_implements(i) <==> (implemented@.contains(i) || i == IID_UNKNOWN)
            },
    {
        if addr == 0 {
            return Err(ComError::InvalidArgument);
        }
        let ghost listed = implemented@;
        let mut iids = implemented;
        if !contains_iid(&iids, IID_UNKNOWN) {
            iids.push(IID_UNKNOWN);
            proof {
                assert forall|i: u64| iids@.contains(i) implies listed.contains(i) || i
                    == IID_UNKNOWN by {
                    let j = choose|j: int| 0 <= j < iids@.len() && iids@[j] == i;
                    if j < listed.len() {
                        assert(listed[j] == i);
                    }
                }
                assert forall|i: u64| listed.contains(i) implies iids@.contains(i) by {
                    let j = choose|j: int| 0 <= j < listed.len() && listed[j] == i;
                    assert(iids@[j] == i);
                }
                assert(iids@.contains(IID_UNKNOWN)) by {
                    assert(iids@[listed.len() as int] == IID_UNKNOWN);
                }
            }
        }
        Ok(ComObject { addr, ref_count: 1, acquire_calls: 0, release_calls: 0, iids })
    }

    /// The protocol's acquire operation: one more reference is owed to the
    /// caller.
    pub fn add_ref(&mut self)
        requires
            old(self).spec_ref_count() < u64::MAX,
            old(self).spec_acquire_calls() < u64::MAX,
        ensures
            final(self).spec_ref_count() == count_after_acquire(old(self).spec_ref_count() as int),
            final(self).spec_acquire_calls() == old(self).spec_acquire_calls() + 1,
            final(self).spec_release_calls() == old(self).spec_release_calls(),
            same_identity(*old(self), *final(self)),
    {
        self.ref_count = self.ref_count + 1;
        self.acquire_calls = self.acquire_calls + 1;
    }

    /// The protocol's release operation: gives one reference back and returns
    /// the resulting count; zero means the instance has torn itself down.
    pub fn release(&mut self) -> (r: u64)
        requires
            old(self).spec_ref_count() >= 1,
            old(self).spec_release_calls() < u64::MAX,
        ensures
            final(self).spec_ref_count() == count_after_release(old(self).spec_ref_count() as int),
            r == final(self).spec_ref_count(),
            final(self).spec_release_calls() == old(self).spec_release_calls() + 1,
            final(self).spec_acquire_calls() == old(self).spec_acquire_calls(),
            same_identity(*old(self), *final(self)),
    {
        self.ref_count = self.ref_count - 1;
        self.release_calls = self.release_calls + 1;
        self.ref_count
    }

    /// Runtime form of [`ComObject::spec_supports`].
    pub fn supports(&self, kind: &InterfaceKind) -> (r: bool)
        ensures
            r == self.spec_supports(kind),
    {
        let declared = kind.declared();
        let mut k: usize = 0;
        while k < declared.len()
            invariant
                0 <= k <= declared.len(),
                forall|i: u64| declared@.contains(i) <==> kind.spec_declares(i),
                forall|j: int| 0 <= j < k ==> self.spec_implements(declared@[j]),
            decreases declared.len() - k,
        {
            let witness = declared[k];
            if !contains_iid(&self.iids, witness) {
                proof {
                    assert(declared@.contains(witness)) by {
                        assert(declared@[k as int] == witness);
                    }
                    assert(kind.spec_declares(witness) && !self.spec_implements(witness));
                    assert(!self.spec_supports(kind));
                }
                return false;
            }
            k += 1;
        }
        proof {
            assert forall|i: u64| kind.spec_declares(i) implies self.spec_implements(i) by {
                let j = choose|j: int| 0 <= j < declared@.len() && declared@[j] == i;
                assert(self.spec_implements(declared@[j]));
            }
        }
        true
    }

    /// The protocol's dynamic interface query: when the instance supports
    /// `kind` it acquires one reference on behalf of the caller and answers
    /// with its address; otherwise it answers with the null value and is left
    /// untouched. An absent kind is an expected outcome, not an error.
    pub fn query_interface(&mut self, kind: &InterfaceKind) -> (r: usize)
        requires
            old(self).spec_ref_count() < u64::MAX,
            old(self).spec_acquire_calls() < u64::MAX,
        ensures
            old(self).spec_supports(kind) ==> {
                &&& r == old(self).spec_addr()
                &&& final(self).spec_ref_count() == count_after_acquire(
                    old(self).spec_ref_count() as int,
                )
                &&& final(self).spec_acquire_calls() == old(self).spec_acquire_calls() + 1
            },
            !old(self).spec_supports(kind) ==> r == 0 && *final(self) == *old(self),
            final(self).spec_release_calls() == old(self).spec_release_calls(),
            same_identity(*old(self), *final(self)),
    {
        if self.supports(kind) {
            self.add_ref();
            self.addr
        } else {
            0
        }
    }

    /// The address under which the instance is reached; the pointer value a
    /// creation call hands out.
    pub fn addr(&self) -> (r: usize)
        ensures
            r == self.spec_addr(),
    {
        self.addr
    }

    /// The current reference count.
    pub fn ref_count(&self) -> (r: u64)
        ensures
            r == self.spec_ref_count(),
    {
        self.ref_count
    }

    /// How many times the acquire operation has run.
    pub fn acquire_calls(&self) -> (r: u64)
        ensures
            r == self.spec_acquire_calls(),
    {
        self.acquire_calls
    }

    /// How many times the release operation has run.
    pub fn release_calls(&self) -> (r: u64)
        ensures
            r == self.spec_release_calls(),
    {
        self.release_calls
    }
}

} // verus!
