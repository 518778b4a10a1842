use std::ops::Deref;

use own::OwnedOrRef;

#[test]
fn owned_or_ref_debug() {
    let owned_or_ref = OwnedOrRef::Owned(123);

    assert_eq!("Owned(123)", format!("{owned_or_ref:?}"));
}

#[test]
fn owned_or_ref_reborrow() {
    let owned = OwnedOrRef::Owned(123);
    let n = 123;
    let borrowed = OwnedOrRef::Ref(&n);

    assert_eq!(OwnedOrRef::Ref(&123), owned.reborrow());
    assert_eq!(OwnedOrRef::Ref(&123), borrowed.reborrow());
}

#[test]
fn owned_or_ref_deref() {
    let owned = OwnedOrRef::Owned(123);
    let n = 123;
    let borrowed = OwnedOrRef::Ref(&n);

    assert_eq!(&123, Deref::deref(&owned));
    assert_eq!(&123, Deref::deref(&borrowed));
}

#[test]
fn owned_or_ref_from_t() {
    let owned = OwnedOrRef::from(123);

    assert_eq!(OwnedOrRef::Owned(123), owned);
}

#[test]
fn from_ref() {
    let n = 123;
    let ref_n = OwnedOrRef::<u32>::from(&n);
    let m = 123;
    let ref_m = OwnedOrRef::Ref(&m);

    assert_eq!(ref_n, ref_m);
}

#[test]
fn owned_or_ref_ref_debug() {
    let n = 123;
    let owned_or_ref = OwnedOrRef::Ref(&n);

    assert_eq!("Ref(123)", format!("{owned_or_ref:?}"));
}

#[test]
fn owned_or_ref_deref_shares_storage() {
    let n = 123;
    let borrowed = OwnedOrRef::Ref(&n);

    assert!(std::ptr::eq(Deref::deref(&borrowed), &n));
}

#[test]
fn owned_or_ref_repeated_reborrow() {
    let owned = OwnedOrRef::Owned(123);

    let first = owned.reborrow();
    assert_eq!(OwnedOrRef::Ref(&123), first);
    assert_eq!(&123, Deref::deref(&first));

    let second = first.reborrow();
    assert_eq!(OwnedOrRef::Ref(&123), second);
    assert_eq!(&123, Deref::deref(&second));

    assert_eq!(&123, Deref::deref(&owned));
}

#[test]
fn owned_or_ref_equality_is_per_case() {
    let n = 123;
    let a = 123;

    assert_ne!(OwnedOrRef::Owned(123), OwnedOrRef::Ref(&n));
    assert_eq!(OwnedOrRef::<u32>::Ref(&a), OwnedOrRef::Ref(&n));
    assert_eq!(OwnedOrRef::<u32>::Owned(123), OwnedOrRef::Owned(123));
    assert_ne!(OwnedOrRef::<u32>::Owned(123), OwnedOrRef::Owned(124));
}
