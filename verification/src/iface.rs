//! Interface kinds: stable identifiers for the contracts an object may
//! implement, together with the declared extends-relation between them.

use vstd::prelude::*;

verus! {

/// Identifier of the base identity interface kind. Every interface kind
/// transitively extends it and every object implements it: it is the kind
/// through which the reference-counting protocol itself is reached.
pub const IID_UNKNOWN: u64 = 0;

/// A statically identified interface kind: its own stable identifier and the
/// identifiers of every kind it transitively extends.
#[derive(Debug)]
pub struct InterfaceKind {
    iid: u64,
    bases: Vec<u64>,
}

/// Whether two kind values name the same contract: the same identifier and
/// the same declared set.
pub open spec fn same_kind(a: InterfaceKind, b: InterfaceKind) -> bool {
    &&& a.spec_iid() == b.spec_iid()
    &&& forall|i: u64| a.spec_declares(i) == b.spec_declares(i)
}

impl InterfaceKind {
    /// The kind's own stable identifier.
    pub closed spec fn spec_iid(&self) -> u64 {
        self.iid
    }

    /// Whether this kind declares `iid`: it is `iid` itself or transitively
    /// extends it.
    pub closed spec fn spec_declares(&self, iid: u64) -> bool {
        iid == self.iid || self.bases@.contains(iid)
    }

    /// A well-formed kind declares the base identity kind.
    pub open spec fn wf(&self) -> bool {
        self.spec_declares(IID_UNKNOWN)
    }

    /// Whether this kind extends `other` in the declared hierarchy: everything
    /// `other` declares, this kind declares too.
    pub open spec fn spec_extends(&self, other: &InterfaceKind) -> bool {
        forall|i: u64| other.spec_declares(i) ==> self.spec_declares(i)
    }

    /// The base identity interface kind itself: it declares exactly
    /// [`IID_UNKNOWN`].
    pub fn base() -> (r: InterfaceKind)
        ensures
            r.wf(),
            r.spec_iid() == IID_UNKNOWN,
            forall|i: u64| r.spec_declares(i) <==> i == IID_UNKNOWN,
    {
        InterfaceKind { iid: IID_UNKNOWN, bases: Vec::new() }
    }

    /// Declares the interface kind `iid`, extending exactly the kinds in
    /// `bases`; the base identity kind is declared whether or not it is
    /// listed.
    pub fn new(iid: u64, bases: Vec<u64>) -> (r: InterfaceKind)
        ensures
            r.wf(),
            r.spec_iid() == iid,
            forall|i: u64|
                r.spec_declares(i) <==> (i == iid || bases@.contains(i) || i == IID_UNKNOWN),
    {
        let ghost listed = bases@;
        let mut all = bases;
        if !contains_iid(&all, IID_UNKNOWN) {
            all.push(IID_UNKNOWN);
            proof {
                assert forall|i: u64| all@.contains(i) implies listed.contains(i) || i
                    == IID_UNKNOWN by {
                    let j = choose|j: int| 0 <= j < all@.len() && all@[j] == i;
                    if j < listed.len() {
                        assert(listed[j] == i);
                    }
                }
                assert forall|i: u64| listed.contains(i) implies all@.contains(i) by {
                    let j = choose|j: int| 0 <= j < listed.len() && listed[j] == i;
                    assert(all@[j] == i);
                }
                assert(all@.contains(IID_UNKNOWN)) by {
                    assert(all@[listed.len() as int] == IID_UNKNOWN);
                }
            }
        }
        InterfaceKind { iid, bases: all }
    }

    /// The kind's stable identifier, used to request it through the query
    /// operation.
    pub fn iid(&self) -> (r: u64)
        ensures
            r == self.spec_iid(),
    {
        self.iid
    }

    /// Runtime form of [`InterfaceKind::spec_declares`].
    pub fn declares(&self, iid: u64) -> (r: bool)
        ensures
            r == self.spec_declares(iid),
    {
        iid == self.iid || contains_iid(&self.bases, iid)
    }

    /// Runtime form of [`InterfaceKind::spec_extends`].
    pub fn extends(&self, other: &InterfaceKind) -> (r: bool)
        ensures
            r == self.spec_extends(other),
    {
        if !self.declares(other.iid) {
            return false;
        }
        let mut k: usize = 0;
        while k < other.bases.len()
            invariant
                0 <= k <= other.bases.len(),
                self.spec_declares(other.spec_iid()),
                forall|j: int| 0 <= j < k ==> self.spec_declares(other.bases@[j]),
            decreases other.bases.len() - k,
        {
            if !self.declares(other.bases[k]) {
                assert(other.spec_declares(other.bases@[k as int]));
                return false;
            }
            k += 1;
        }
        proof {
            assert forall|i: u64| other.spec_declares(i) implies self.spec_declares(i) by {
                if i != other.iid {
                    let j = choose|j: int| 0 <= j < other.bases@.len() && other.bases@[j] == i;
                    assert(self.spec_declares(other.bases@[j]));
                }
            }
        }
        true
    }

    /// Every kind identifier this kind declares, as one list.
    pub fn declared(&self) -> (r: Vec<u64>)
        ensures
            forall|i: u64| r@.contains(i) <==> self.spec_declares(i),
    {
        let mut r: Vec<u64> = Vec::new();
        let mut k: usize = 0;
        while k < self.bases.len()
            invariant
                0 <= k <= self.bases.len(),
                r@ == self.bases@.subrange(0, k as int),
            decreases self.bases.len() - k,
        {
            r.push(self.bases[k]);
            k += 1;
        }
        assert(r@ == self.bases@);
        r.push(self.iid);
        proof {
            assert forall|i: u64| r@.contains(i) implies self.spec_declares(i) by {
                let j = choose|j: int| 0 <= j < r@.len() && r@[j] == i;
                if j < self.bases@.len() {
                    assert(self.bases@[j] == i);
                }
            }
            assert forall|i: u64| self.spec_declares(i) implies r@.contains(i) by {
                if i == self.iid {
                    assert(r@[self.bases@.len() as int] == i);
                } else {
                    let j = choose|j: int|
                        0 <= j < self.bases@.len() && self.bases@[j] == i;
                    assert(r@[j] == i);
                }
            }
        }
        r
    }
}

impl Clone for InterfaceKind {
    /// Cloning preserves the kind: the same identifier and the same declared
    /// set.
    fn clone(&self) -> (r: Self)
        ensures
            same_kind(r, *self),
    {
        let mut bases: Vec<u64> = Vec::new();
        let mut k: usize = 0;
        while k < self.bases.len()
            invariant
                0 <= k <= self.bases.len(),
                bases@ == self.bases@.subrange(0, k as int),
            decreases self.bases.len() - k,
        {
            bases.push(self.bases[k]);
            k += 1;
        }
        assert(bases@ == self.bases@);
        InterfaceKind { iid: self.iid, bases }
    }
}

/// Whether `v` holds the identifier `iid`.
pub(crate) fn contains_iid(v: &Vec<u64>, iid: u64) -> (r: bool)
    ensures
        r == v@.contains(iid),
{
    let mut k: usize = 0;
    while k < v.len()
        invariant
            0 <= k <= v.len(),
            forall|j: int| 0 <= j < k ==> v@[j] != iid,
        decreases v.len() - k,
    {
        if v[k] == iid {
            return true;
        }
        k += 1;
    }
    false
}

} // verus!
