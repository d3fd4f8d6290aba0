use pyclass_runtime::borrow::{BorrowError, BorrowFlag};
use pyclass_runtime::init::{
    AllocOrigin, BaseInitializer, HostHeap, NativeBase, PyClassInitializer, PyErr,
    PyNativeTypeInitializer, PyObjectInit,
};

#[derive(Debug, PartialEq)]
enum Val {
    A { x: i32 },
    B { y: i32 },
    C { z: i32 },
}

#[test]
fn two_level_chain_end_to_end() {
    let mut heap: HostHeap<Val> = HostHeap::new(4);
    let init = PyClassInitializer::from(Val::A { x: 1 }).add_subclass(Val::B { y: 2 });
    let p = init.create_cell_from_subtype(&mut heap, 7).unwrap();
    assert_eq!(p, 0);
    assert_eq!(heap.len(), 1);
    let o = heap.object(p);
    assert_eq!(o.subtype, 7);
    assert_eq!(o.origin, AllocOrigin::GenericAlloc);
    assert_eq!(o.contents.len(), 2);
    assert_eq!(o.contents[0].value, Val::A { x: 1 });
    assert_eq!(o.contents[1].value, Val::B { y: 2 });
    assert!(o.contents[0].dict.is_none() && o.contents[0].weakref.is_none());
    assert!(o.contents[1].dict.is_none() && o.contents[1].weakref.is_none());
    assert_eq!(o.borrow_flag, Some(BorrowFlag::Unused));
    assert_eq!(heap.borrow_flag_at(p, 0), heap.borrow_flag_at(p, 1));
}

#[test]
fn three_level_chain_shares_one_flag() {
    let mut heap: HostHeap<Val> = HostHeap::new(2);
    let init = PyClassInitializer::new(
        Val::C { z: 3 },
        BaseInitializer::Class(PyClassInitializer::from(Val::A { x: 1 }).add_subclass(Val::B { y: 2 })),
    );
    let p = init.into_new_object(&mut heap, 1).unwrap();
    assert_eq!(heap.object(p).contents.len(), 3);
    assert_eq!(heap.object(p).contents[2].value, Val::C { z: 3 });
    for level in 0..3 {
        assert_eq!(heap.borrow_flag_at(p, level), BorrowFlag::Unused);
    }
    heap.try_borrow_mut(p, 2).unwrap();
    for level in 0..3 {
        assert_eq!(heap.borrow_flag_at(p, level), BorrowFlag::Exclusive);
    }
    assert_eq!(heap.try_borrow(p, 0), Err(BorrowError::AlreadyMutablyBorrowed));
    heap.release_borrow_mut(p, 1).unwrap();
    heap.try_borrow(p, 0).unwrap();
    heap.try_borrow(p, 2).unwrap();
    assert_eq!(heap.borrow_flag_at(p, 1), BorrowFlag::Shared(2));
    assert_eq!(heap.try_borrow_mut(p, 1), Err(BorrowError::AlreadyBorrowed));
    heap.release_borrow(p, 1).unwrap();
    heap.release_borrow(p, 0).unwrap();
    assert_eq!(heap.borrow_flag_at(p, 2), BorrowFlag::Unused);
    assert_eq!(heap.release_borrow(p, 0), Err(BorrowError::NotBorrowed));
}

#[test]
fn allocation_failure_leaves_memory_untouched() {
    let mut heap: HostHeap<Val> = HostHeap::new(1);
    let first = PyClassInitializer::from(Val::A { x: 1 });
    assert_eq!(first.create_cell_from_subtype(&mut heap, 1), Ok(0));
    let second = PyClassInitializer::from(Val::A { x: 9 }).add_subclass(Val::B { y: 8 });
    assert_eq!(second.create_cell_from_subtype(&mut heap, 1), Err(PyErr::AllocationFailed));
    assert_eq!(heap.len(), 1);
    assert_eq!(heap.object(0).contents.len(), 1);
    assert_eq!(heap.object(0).contents[0].value, Val::A { x: 1 });
}

#[test]
fn base_without_constructor_refused() {
    let mut heap: HostHeap<Val> = HostHeap::new(4);
    let base = PyNativeTypeInitializer { base: NativeBase::Native { has_constructor: false } };
    let init = PyClassInitializer::new(Val::A { x: 1 }, BaseInitializer::Native(base));
    assert_eq!(init.create_cell_from_subtype(&mut heap, 3), Err(PyErr::NoBaseConstructor));
    assert_eq!(heap.len(), 0);
}

#[test]
fn base_constructor_provides_memory() {
    let mut heap: HostHeap<Val> = HostHeap::new(4);
    let base = PyNativeTypeInitializer { base: NativeBase::Native { has_constructor: true } };
    let init = PyClassInitializer::new(Val::A { x: 5 }, BaseInitializer::Native(base));
    let p = init.create_cell_from_subtype(&mut heap, 3).unwrap();
    let o = heap.object(p);
    assert_eq!(o.origin, AllocOrigin::BaseNew);
    assert_eq!(o.contents[0].value, Val::A { x: 5 });
    assert_eq!(o.borrow_flag, Some(BorrowFlag::Unused));
}

#[test]
fn native_initializer_alone_writes_no_cell() {
    let mut heap: HostHeap<Val> = HostHeap::new(2);
    let init = PyNativeTypeInitializer { base: NativeBase::Object };
    let p = init.into_new_object(&mut heap, 5).unwrap();
    let o = heap.object(p);
    assert_eq!(o.subtype, 5);
    assert!(o.contents.is_empty());
    assert_eq!(o.borrow_flag, None);
}

#[test]
fn objects_allocated_in_sequence() {
    let mut heap: HostHeap<Val> = HostHeap::new(3);
    let a = PyClassInitializer::from(Val::A { x: 1 }).create_cell_from_subtype(&mut heap, 1);
    let b = PyClassInitializer::from(Val::B { y: 2 }).create_cell_from_subtype(&mut heap, 2);
    assert_eq!(a, Ok(0));
    assert_eq!(b, Ok(1));
    heap.try_borrow_mut(0, 0).unwrap();
    assert_eq!(heap.borrow_flag_at(1, 0), BorrowFlag::Unused);
    assert_eq!(heap.object(1).contents[0].value, Val::B { y: 2 });
}
