//! The laws of the acquire/release discipline, proved once over the spec
//! functions the operations' contracts are stated with.

use vstd::prelude::*;

use crate::handle::count_after_into_raw;
use crate::handle::ComPtr;
use crate::iface::InterfaceKind;
use crate::iface::IID_UNKNOWN;
use crate::object::count_after_acquire;
use crate::object::count_after_release;
use crate::object::ComObject;

verus! {

/// Duplication is balanced: the acquire of a duplication followed by the
/// release of the duplicate restores the count to its pre-duplication value,
/// and releasing the original as well ends exactly one below it — one
/// decrement per live handle, no double decrement and no leaked increment.
pub proof fn lemma_duplicate_is_balanced(count: int)
    ensures
        count_after_release(count_after_acquire(count)) == count,
        count_after_release(count_after_release(count_after_acquire(count))) == count - 1,
{
}

/// Consuming a handle into its raw pointer and then releasing that pointer
/// once through the protocol ends at the same count as releasing the handle
/// normally: the extraction itself never touches the count, so the two paths
/// neither double-count nor leak.
pub proof fn lemma_into_raw_then_release_matches_drop(count: int)
    ensures
        count_after_release(count_after_into_raw(count)) == count_after_release(count),
{
}

/// A query is owed success for every kind the handle's own kind statically
/// extends: an instance a handle is attached to supports each such kind, so
/// [`ComPtr::query_interface`] answers it with a present, identity-preserving
/// handle by its own contract.
pub proof fn lemma_query_for_extended_kind_is_supported(
    h: &ComPtr,
    obj: &ComObject,
    target: &InterfaceKind,
)
    requires
        h.attached(obj),
        h.spec_kind().spec_extends(target),
    ensures
        obj.spec_supports(target),
{
    assert forall|i: u64| target.spec_declares(i) implies obj.spec_implements(i) by {
        assert(h.spec_kind().spec_declares(i));
    }
}

/// A query for the base identity kind is owed success on every well-formed
/// instance: each one implements the base kind, so a query for a kind that
/// declares nothing beyond it is always answered with a reference.
pub proof fn lemma_query_for_base_kind_is_supported(obj: &ComObject, base: &InterfaceKind)
    requires
        obj.wf(),
        forall|i: u64| base.spec_declares(i) ==> i == IID_UNKNOWN,
    ensures
        obj.spec_supports(base),
{
    assert forall|i: u64| base.spec_declares(i) implies obj.spec_implements(i) by {
        assert(i == IID_UNKNOWN);
    }
}

} // verus!
