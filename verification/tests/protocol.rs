//! The reference-counting discipline of the handle, exercised end to end on
//! the model object: construction, duplication, discovery, extraction and
//! destruction.

use com_ptr::ComError;
use com_ptr::ComObject;
use com_ptr::ComPtr;
use com_ptr::InterfaceKind;

const IID_TEST: u64 = 2;
const IID_BASE_OF_TEST: u64 = 1;
const IID_ABSENT: u64 = 9;

fn test_kind() -> InterfaceKind {
    InterfaceKind::new(IID_TEST, vec![IID_BASE_OF_TEST])
}

fn create_object(addr: usize) -> ComObject {
    ComObject::create(addr, vec![IID_TEST, IID_BASE_OF_TEST]).unwrap()
}

fn create_com_ptr(obj: &ComObject) -> ComPtr {
    ComPtr::new_unchecked(obj.addr(), test_kind())
}

#[test]
fn create_and_use_interface() {
    let mut obj = create_object(1234);
    let comptr = create_com_ptr(&obj);

    {
        let unknown = comptr
            .query_interface(&mut obj, &InterfaceKind::base())
            .unwrap();

        let clone = unknown.duplicate(&mut obj);

        clone.release(&mut obj);
        unknown.release(&mut obj);
    }

    assert_eq!(comptr.get_mut(), 1234);
    assert_eq!(comptr.kind().iid(), IID_TEST);
    comptr.release(&mut obj);
}

#[test]
fn debug_trait() {
    let mut obj = create_object(1234);
    let comptr = create_com_ptr(&obj);

    println!("{:?}", comptr);

    comptr.release(&mut obj);
}

#[test]
fn from_pointer_owns_one_reference() {
    let mut obj = create_object(64);

    let handle = ComPtr::new(obj.addr(), test_kind()).unwrap();
    assert_eq!(obj.ref_count(), 1);
    assert_eq!(handle.get_mut(), 64);

    handle.release(&mut obj);
    assert_eq!(obj.ref_count(), 0);
}

#[test]
fn null_pointer_rejected_without_side_effects() {
    let obj = create_object(64);

    let result = ComPtr::new(0, test_kind());
    assert!(matches!(result, Err(ComError::InvalidArgument)));

    assert_eq!(obj.ref_count(), 1);
    assert_eq!(obj.acquire_calls(), 0);
    assert_eq!(obj.release_calls(), 0);
}

#[test]
fn create_null_address_rejected() {
    let result = ComObject::create(0, vec![IID_TEST]);
    assert!(matches!(result, Err(ComError::InvalidArgument)));
}

#[test]
fn duplicate_increments_and_both_release() {
    let mut obj = create_object(64);
    let original = create_com_ptr(&obj);
    assert_eq!(obj.ref_count(), 1);

    let clone = original.duplicate(&mut obj);
    assert_eq!(obj.ref_count(), 2);
    assert_eq!(clone.get_mut(), original.get_mut());

    clone.release(&mut obj);
    assert_eq!(obj.ref_count(), 1);

    original.release(&mut obj);
    assert_eq!(obj.ref_count(), 0);
}

#[test]
fn query_for_extended_kind_preserves_identity() {
    let mut obj = create_object(64);
    let handle = create_com_ptr(&obj);
    let base = InterfaceKind::new(IID_BASE_OF_TEST, vec![]);

    let queried = handle.query_interface(&mut obj, &base).unwrap();
    assert_eq!(queried.get_mut(), handle.get_mut());
    assert_eq!(obj.ref_count(), 2);

    queried.release(&mut obj);
    assert_eq!(obj.ref_count(), 1);

    handle.release(&mut obj);
}

#[test]
fn query_for_absent_kind_is_none_without_count_change() {
    let mut obj = create_object(64);
    let handle = create_com_ptr(&obj);

    let absent = InterfaceKind::new(IID_ABSENT, vec![]);
    let queried = handle.query_interface(&mut obj, &absent);
    assert!(queried.is_none());
    assert_eq!(obj.ref_count(), 1);
    assert_eq!(obj.acquire_calls(), 0);

    handle.release(&mut obj);
}

#[test]
fn into_raw_then_release_matches_normal_drop() {
    let mut dropped = create_object(64);
    let handle = create_com_ptr(&dropped);
    handle.release(&mut dropped);

    let mut extracted = create_object(64);
    let handle = create_com_ptr(&extracted);
    let raw = handle.into_raw();
    assert_eq!(raw, 64);
    assert_eq!(extracted.ref_count(), 1);
    let remaining = extracted.release();
    assert_eq!(remaining, 0);

    assert_eq!(dropped.ref_count(), extracted.ref_count());
    assert_eq!(dropped.release_calls(), extracted.release_calls());
    assert_eq!(dropped.acquire_calls(), extracted.acquire_calls());
}

#[test]
fn full_lifecycle_releases_once_per_handle() {
    let mut obj = create_object(64);
    assert_eq!(obj.ref_count(), 1);

    let original = ComPtr::new(obj.addr(), test_kind()).unwrap();

    let clone = original.duplicate(&mut obj);
    assert_eq!(obj.ref_count(), 2);

    clone.release(&mut obj);
    assert_eq!(obj.ref_count(), 1);

    original.release(&mut obj);
    assert_eq!(obj.ref_count(), 0);

    assert_eq!(obj.acquire_calls(), 1);
    assert_eq!(obj.release_calls(), 2);
}

#[test]
fn query_for_base_kind_always_succeeds() {
    let mut obj = create_object(64);
    let handle = create_com_ptr(&obj);

    let unknown = handle
        .query_interface(&mut obj, &InterfaceKind::base())
        .unwrap();
    assert_eq!(unknown.get_mut(), handle.get_mut());

    unknown.release(&mut obj);
    handle.release(&mut obj);
}

#[test]
fn upcast_is_a_non_owning_view() {
    let mut obj = create_object(64);
    let handle = create_com_ptr(&obj);

    let view = handle.upcast(&InterfaceKind::base());
    assert_eq!(view.get(), handle.get_mut());
    assert_eq!(view.iid(), 0);
    assert_eq!(obj.ref_count(), 1);
    assert_eq!(obj.acquire_calls(), 0);

    let base_of_test = InterfaceKind::new(IID_BASE_OF_TEST, vec![]);
    let view = handle.upcast(&base_of_test);
    assert_eq!(view.get(), 64);
    assert_eq!(view.iid(), IID_BASE_OF_TEST);

    handle.release(&mut obj);
}

#[test]
fn handle_identity_is_pointer_equality() {
    let mut first = create_object(64);
    let mut second = create_object(65);

    let a = create_com_ptr(&first);
    let b = a.duplicate(&mut first);
    let c = create_com_ptr(&second);

    assert!(a == b);
    assert!(a != c);

    a.release(&mut first);
    b.release(&mut first);
    c.release(&mut second);
}
