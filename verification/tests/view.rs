use core::cell::RefCell;
use core::ops::Deref;
use core::ops::DerefMut;
use own_or_borrow::render::written_text;
use own_or_borrow::view::read_view_of;
use own_or_borrow::view::write_view_of;
use own_or_borrow::OwnOrBorrow;
use own_or_borrow::Reference;
use own_or_borrow::ReferenceMut;

#[test]
fn read_view_from_a_plain_reference() {
    let value = 5;
    let view = Reference::from(&value);
    assert!(matches!(view, Reference::Borrowed(_)));
    assert_eq!(*view, 5);
    assert_eq!(view.deref(), &5);
    assert_eq!(view.borrow(), &5);
    assert_eq!(view.as_ref(), &5);
}

#[test]
fn read_view_from_a_guard() {
    let cell = RefCell::new(5);
    let view = Reference::from(cell.borrow());
    assert!(matches!(view, Reference::RefCell(_)));
    assert_eq!(*view, 5);
    assert_eq!(view.deref(), &5);
    assert_eq!(view.borrow(), &5);
    assert_eq!(view.as_ref(), &5);
}

#[test]
fn read_view_from_a_guard_kept_elsewhere() {
    let cell = RefCell::new(5);
    let guard = cell.borrow();
    let view: Reference<i32> = Reference::from(&guard);
    assert!(matches!(view, Reference::RefCellRef(_)));
    assert_eq!(*view, 5);
    assert_eq!(view.deref(), &5);
    assert_eq!(view.borrow(), &5);
    assert_eq!(view.as_ref(), &5);
}

#[test]
fn write_view_from_a_plain_reference() {
    let mut value = 5;
    {
        let mut view = ReferenceMut::from(&mut value);
        assert!(matches!(view, ReferenceMut::Borrowed(_)));
        assert_eq!(*view, 5);
        assert_eq!(view.borrow(), &5);
        assert_eq!(view.as_ref(), &5);
        *view.deref_mut() = 6;
        assert_eq!(view.deref(), &6);
        *view.borrow_mut() = 7;
        assert_eq!(*view, 7);
        *view.as_mut() = 8;
        assert_eq!(*view, 8);
    }
    assert_eq!(value, 8);
}

#[test]
fn write_view_from_a_guard() {
    let cell = RefCell::new(5);
    {
        let mut view = ReferenceMut::from(cell.borrow_mut());
        assert!(matches!(view, ReferenceMut::RefCell(_)));
        assert_eq!(*view, 5);
        assert_eq!(view.borrow(), &5);
        assert_eq!(view.as_ref(), &5);
        *view.deref_mut() = 6;
        assert_eq!(view.deref(), &6);
        *view.borrow_mut() = 7;
        assert_eq!(*view, 7);
        *view.as_mut() = 8;
        assert_eq!(*view, 8);
    }
    assert_eq!(cell.into_inner(), 8);
}

#[test]
fn write_view_from_a_guard_kept_elsewhere() {
    let cell = RefCell::new(5);
    let guard = Box::leak(Box::new(cell.borrow_mut()));
    let mut view: ReferenceMut<i32> = ReferenceMut::from(guard);
    assert!(matches!(view, ReferenceMut::RefCellRef(_)));
    assert_eq!(*view, 5);
    assert_eq!(view.borrow(), &5);
    assert_eq!(view.as_ref(), &5);
    *view.deref_mut() = 6;
    assert_eq!(view.deref(), &6);
    *view.borrow_mut() = 7;
    assert_eq!(*view, 7);
    *view.as_mut() = 8;
    assert_eq!(*view, 8);
    assert!(cell.try_borrow().is_err());
}

#[test]
fn views_of_a_container_are_of_the_kind_it_holds() {
    let shared = RefCell::new(3);
    let mut owned = OwnOrBorrow::own(1);
    let mut cell = OwnOrBorrow::from(RefCell::new(2));
    let mut refers = OwnOrBorrow::from(&shared);
    assert!(matches!(owned.borrow(), Some(Reference::Borrowed(&1))));
    assert!(matches!(cell.borrow(), Some(Reference::RefCell(_))));
    assert!(matches!(refers.borrow(), Some(Reference::RefCell(_))));
    assert!(matches!(owned.borrow_mut(), Some(ReferenceMut::Borrowed(&mut 1))));
    assert!(matches!(cell.borrow_mut(), Some(ReferenceMut::RefCell(_))));
    assert!(matches!(refers.borrow_mut(), Some(ReferenceMut::RefCell(_))));
    assert!(matches!(owned, OwnOrBorrow::Owned(1)));
    assert!(matches!(cell, OwnOrBorrow::RefCell(_)));
    assert!(matches!(refers, OwnOrBorrow::RefCellRef(_)));
}

#[test]
fn view_of_a_granted_guard_reads_through_it() {
    let cell = RefCell::new(5);
    let view = read_view_of(cell.try_borrow()).unwrap();
    assert!(matches!(view, Reference::RefCell(_)));
    assert_eq!(*view, 5);
    assert!(cell.try_borrow_mut().is_err());
}

#[test]
fn no_view_of_a_refused_guard() {
    let cell = RefCell::new(5);
    let _writer = cell.borrow_mut();
    assert!(read_view_of(cell.try_borrow()).is_none());
    assert!(write_view_of(cell.try_borrow_mut()).is_none());
}

#[test]
fn view_of_a_granted_write_guard_writes_through_it() {
    let cell = RefCell::new(5);
    {
        let mut view = write_view_of(cell.try_borrow_mut()).unwrap();
        assert!(matches!(view, ReferenceMut::RefCell(_)));
        *view = 6;
    }
    assert_eq!(cell.into_inner(), 6);
}

#[test]
fn written_text_is_kept_or_dropped_with_the_outcome() {
    assert_eq!(written_text(String::from("ab"), Ok(())), Some(String::from("ab")));
    assert_eq!(written_text(String::from("ab"), Err(core::fmt::Error)), None);
}

#[test]
fn views_lend_through_the_borrow_traits() {
    let mut value = 5;
    {
        let view = Reference::from(&value);
        let lent: &i32 = core::borrow::Borrow::borrow(&view);
        assert_eq!(lent, &5);
    }
    let mut view = ReferenceMut::from(&mut value);
    {
        let lent: &i32 = core::borrow::Borrow::borrow(&view);
        assert_eq!(lent, &5);
    }
    {
        let lent: &mut i32 = core::borrow::BorrowMut::borrow_mut(&mut view);
        *lent = 6;
    }
    assert_eq!(*view, 6);
}
