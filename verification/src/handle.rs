//! The owning handle over one reference to an interface instance, and the
//! non-owning view an upcast yields.
//!
//! A handle owns exactly one unit of the instance's reference count.
//! Construction takes over a reference the caller already holds and touches no
//! count; duplication acquires one more; destruction releases exactly once and
//! consumes the handle, so a second release of the same handle cannot even be
//! written. Consuming a handle into its raw pointer hands that one reference
//! to the caller instead of releasing it.
//!
//! The handle grants no cross-thread capability of its own: a concrete
//! interface that tolerates concurrent access must be asserted as such by the
//! integrator, out of band.

use vstd::prelude::*;

use crate::errors::ComError;
use crate::iface::same_kind;
use crate::iface::InterfaceKind;
use crate::object::count_after_acquire;
use crate::object::count_after_release;
use crate::object::same_identity;
use crate::object::ComObject;

verus! {

/// Extracting the raw pointer from a handle leaves the reference count as it
/// is: the one reference the handle owned travels with the pointer.
pub open spec fn count_after_into_raw(count: int) -> int {
    count
}

/// An owning handle: a non-null pointer value of a static interface kind,
/// standing for one reference to the instance at that address.
#[derive(Debug)]
pub struct ComPtr {
    ptr: usize,
    kind: InterfaceKind,
}

impl ComPtr {
    /// The pointer value this handle wraps.
    pub closed spec fn spec_ptr(&self) -> usize {
        self.ptr
    }

    /// The static interface kind this handle is typed as.
    pub closed spec fn spec_kind(&self) -> InterfaceKind {
        self.kind
    }

    /// A live handle wraps a non-null pointer of a well-formed kind.
    pub open spec fn wf(&self) -> bool {
        &&& self.spec_ptr() != 0
        &&& self.spec_kind().wf()
    }

    /// Whether this handle is a reference into `obj`: it points at `obj`'s
    /// address, `obj` supports the handle's kind, and the count carries at
    /// least this handle's one reference.
    pub open spec fn attached(&self, obj: &ComObject) -> bool {
        &&& self.spec_ptr() == obj.spec_addr()
        &&& obj.spec_supports(&self.spec_kind())
        &&& obj.spec_ref_count() >= 1
    }

    /// Checked construction from a raw pointer value: takes ownership of the
    /// one reference the caller already holds (a creation call has already
    /// counted it), so no count is touched. The null value is rejected with no
    /// side effect and no handle.
    pub fn new(raw: usize, kind: InterfaceKind) -> (r: Result<ComPtr, ComError>)
        requires
            kind.wf(),
        ensures
            raw == 0 <==> r is Err,
            r matches Err(e) ==> e == ComError::InvalidArgument,
            r matches Ok(h) ==> h.wf() && h.spec_ptr() == raw && h.spec_kind() == kind,
    {
        if raw == 0 {
            Err(ComError::InvalidArgument)
        } else {
            Ok(ComPtr { ptr: raw, kind })
        }
    }

    /// Unchecked construction: the same ownership transfer, with the null
    /// check discharged statically instead of at run time — for the hot path
    /// right after a creation call or a query has produced a known non-null
    /// pointer.
    pub fn new_unchecked(raw: usize, kind: InterfaceKind) -> (r: ComPtr)
        requires
            raw != 0,
            kind.wf(),
        ensures
            r.wf(),
            r.spec_ptr() == raw,
            r.spec_kind() == kind,
    {
        ComPtr { ptr: raw, kind }
    }

    /// Callback-style construction: `f` stands for a factory call that yields
    /// the pointer value of an already counted reference, or the null value
    /// when it produced nothing. The result goes through the checked path, so
    /// a factory that can only yield non-null values is owed a handle.
    pub fn from_initializer<F: FnOnce() -> usize>(kind: InterfaceKind, f: F) -> (r: Result<
        ComPtr,
        ComError,
    >)
        requires
            kind.wf(),
            call_requires(f, ()),
        ensures
            r matches Ok(h) ==> {
                &&& h.wf()
                &&& h.spec_kind() == kind
                &&& h.spec_ptr() != 0
                &&& call_ensures(f, (), h.spec_ptr())
            },
            r matches Err(e) ==> e == ComError::InvalidArgument && call_ensures(f, (), 0usize),
            (forall|p: usize| call_ensures(f, (), p) ==> p != 0) ==> r is Ok,
    {
        let raw = f();
        ComPtr::new(raw, kind)
    }

    /// Fallible callback-style construction: `f` either reports an error of
    /// the caller's own type, which is passed through with no handle produced
    /// and nothing released, or yields the pointer of an already counted
    /// reference, which must be non-null.
    pub fn try_from_initializer<E, F: FnOnce() -> Result<usize, E>>(
        kind: InterfaceKind,
        f: F,
    ) -> (r: Result<ComPtr, E>)
        requires
            kind.wf(),
            call_requires(f, ()),
            forall|res: Result<usize, E>|
                call_ensures(f, (), res) ==> (res matches Ok(p) ==> p != 0),
        ensures
            r matches Ok(h) ==> {
                &&& h.wf()
                &&& h.spec_kind() == kind
                &&& h.spec_ptr() != 0
                &&& call_ensures(f, (), Ok::<usize, E>(h.spec_ptr()))
            },
            r matches Err(e) ==> call_ensures(f, (), Err::<usize, E>(e)),
    {
        match f() {
            Ok(raw) => Ok(ComPtr::new_unchecked(raw, kind)),
            Err(e) => Err(e),
        }
    }

    /// Duplication: acquires one more reference from the instance, then wraps
    /// the same pointer through the unchecked path. Afterwards both handles
    /// are independently destructible, each owing exactly one release.
    pub fn duplicate(&self, obj: &mut ComObject) -> (r: ComPtr)
        requires
            self.wf(),
            self.attached(&*old(obj)),
            old(obj).spec_ref_count() < u64::MAX,
            old(obj).spec_acquire_calls() < u64::MAX,
        ensures
            r.wf(),
            r.spec_ptr() == self.spec_ptr(),
            same_kind(r.spec_kind(), self.spec_kind()),
            final(obj).spec_ref_count() == count_after_acquire(old(obj).spec_ref_count() as int),
            final(obj).spec_acquire_calls() == old(obj).spec_acquire_calls() + 1,
            final(obj).spec_release_calls() == old(obj).spec_release_calls(),
            same_identity(*old(obj), *final(obj)),
            r.attached(&*final(obj)),
            self.attached(&*final(obj)),
    {
        obj.add_ref();
        ComPtr::new_unchecked(self.ptr, self.kind.clone())
    }

    /// Interface discovery: asks the instance for the kind `target`. A present
    /// answer is a new owning handle over the same pointer — the instance has
    /// already acquired the reference on the caller's behalf, so the wrapper
    /// adds no increment of its own. An absent kind is an expected outcome,
    /// answered with no handle and no count change, never an error.
    pub fn query_interface(&self, obj: &mut ComObject, target: &InterfaceKind) -> (r: Option<
        ComPtr,
    >)
        requires
            self.wf(),
            target.wf(),
            self.attached(&*old(obj)),
            old(obj).spec_ref_count() < u64::MAX,
            old(obj).spec_acquire_calls() < u64::MAX,
        ensures
            r is Some <==> old(obj).spec_supports(target),
            r matches Some(h) ==> {
                &&& h.wf()
                &&& h.spec_ptr() == self.spec_ptr()
                &&& same_kind(h.spec_kind(), *target)
                &&& h.attached(&*final(obj))
            },
            old(obj).spec_supports(target) ==> {
                &&& final(obj).spec_ref_count() == count_after_acquire(
                    old(obj).spec_ref_count() as int,
                )
                &&& final(obj).spec_acquire_calls() == old(obj).spec_acquire_calls() + 1
            },
            !old(obj).spec_supports(target) ==> *final(obj) == *old(obj),
            final(obj).spec_release_calls() == old(obj).spec_release_calls(),
            same_identity(*old(obj), *final(obj)),
            self.attached(&*final(obj)),
    {
        let raw = obj.query_interface(target);
        if raw == 0 {
            None
        } else {
            let h = ComPtr::new_unchecked(raw, target.clone());
            proof {
                assert forall|i: u64| h.spec_kind().spec_declares(i) implies obj.spec_implements(
                    i,
                ) by {
                    assert(target.spec_declares(i));
                }
            }
            Some(h)
        }
    }

    /// Upcast: reinterprets this handle under the less specific kind `target`,
    /// which the handle's own kind statically extends. The result is a
    /// non-owning view over the same pointer; no object is involved, so no
    /// count can move.
    pub fn upcast(&self, target: &InterfaceKind) -> (r: ComRef)
        requires
            self.wf(),
            self.spec_kind().spec_extends(target),
        ensures
            r.spec_ptr() == self.spec_ptr(),
            r.spec_ptr() != 0,
            r.spec_iid() == target.spec_iid(),
    {
        ComRef { ptr: self.ptr, iid: target.iid() }
    }

    /// Access: the pointer value through which the interface's methods are
    /// invoked on the host ABI. Ownership is neither transferred nor
    /// duplicated; the value stays usable as long as the handle lives.
    pub fn get_mut(&self) -> (r: usize)
        ensures
            r == self.spec_ptr(),
    {
        self.ptr
    }

    /// The handle's static interface kind.
    pub fn kind(&self) -> (r: &InterfaceKind)
        ensures
            *r == self.spec_kind(),
    {
        &self.kind
    }

    /// Consumes the handle and hands its pointer out without releasing: the
    /// one reference the handle owned now belongs to the caller, who must
    /// eventually release it through the protocol. No destruction logic runs
    /// for a handle consumed this way.
    pub fn into_raw(self) -> (r: usize)
        ensures
            r == self.spec_ptr(),
    {
        self.ptr
    }

    /// Destruction: releases this handle's one reference, exactly once, and
    /// consumes the handle — the single safety-critical step of the protocol.
    /// It asks only that the handle point at `obj` and that the count still
    /// carry the reference this handle owns.
    pub fn release(self, obj: &mut ComObject)
        requires
            self.spec_ptr() == old(obj).spec_addr(),
            old(obj).spec_ref_count() >= 1,
            old(obj).spec_release_calls() < u64::MAX,
        ensures
            final(obj).spec_ref_count() == count_after_release(old(obj).spec_ref_count() as int),
            final(obj).spec_release_calls() == old(obj).spec_release_calls() + 1,
            final(obj).spec_acquire_calls() == old(obj).spec_acquire_calls(),
            same_identity(*old(obj), *final(obj)),
    {
        let _ = obj.release();
    }
}

impl PartialEq for ComPtr {
    /// Handle identity: two handles are the same exactly when their pointer
    /// values are equal, never a deep equality of interface state.
    fn eq(&self, other: &ComPtr) -> (r: bool) {
        self.ptr == other.ptr
    }
}

impl vstd::std_specs::cmp::PartialEqSpecImpl for ComPtr {
    open spec fn obeys_eq_spec() -> bool {
        true
    }

    open spec fn eq_spec(&self, other: &ComPtr) -> bool {
        self.spec_ptr() == other.spec_ptr()
    }
}

/// The non-owning view an upcast yields: the same pointer value reinterpreted
/// under a less specific kind. It owns no reference, so it neither acquires
/// nor releases, and it stays valid only as long as the handle it came from.
#[derive(Debug, Clone, Copy)]
pub struct ComRef {
    ptr: usize,
    iid: u64,
}

impl ComRef {
    /// The pointer value this view reinterprets.
    pub closed spec fn spec_ptr(&self) -> usize {
        self.ptr
    }

    /// The identifier of the kind the view is typed as.
    pub closed spec fn spec_iid(&self) -> u64 {
        self.iid
    }

    /// The pointer value, for invoking the interface's methods on the host
    /// ABI; no ownership travels with it.
    pub fn get(&self) -> (r: usize)
        ensures
            r == self.spec_ptr(),
    {
        self.ptr
    }

    /// The identifier of the kind the view is typed as.
    pub fn iid(&self) -> (r: u64)
        ensures
            r == self.spec_iid(),
    {
        self.iid
    }
}

} // verus!
