use pyclass_runtime::borrow::{BorrowError, BorrowFlag};

#[test]
fn shared_borrows_count_up_and_down() {
    let f = BorrowFlag::Unused;
    let f = f.acquire_shared().unwrap();
    assert_eq!(f, BorrowFlag::Shared(1));
    let f = f.acquire_shared().unwrap();
    assert_eq!(f, BorrowFlag::Shared(2));
    let f = f.release_shared().unwrap();
    assert_eq!(f, BorrowFlag::Shared(1));
    let f = f.release_shared().unwrap();
    assert_eq!(f, BorrowFlag::Unused);
}

#[test]
fn exclusive_refused_while_shared() {
    let f = BorrowFlag::Shared(1);
    assert_eq!(f.acquire_exclusive(), Err(BorrowError::AlreadyBorrowed));
}

#[test]
fn exclusive_refused_twice() {
    let f = BorrowFlag::Unused.acquire_exclusive().unwrap();
    assert_eq!(f, BorrowFlag::Exclusive);
    assert_eq!(f.acquire_exclusive(), Err(BorrowError::AlreadyBorrowed));
}

#[test]
fn exclusive_release_gives_unused() {
    assert_eq!(BorrowFlag::Exclusive.release_exclusive(), Ok(BorrowFlag::Unused));
}

#[test]
fn shared_refused_while_exclusive() {
    assert_eq!(
        BorrowFlag::Exclusive.acquire_shared(),
        Err(BorrowError::AlreadyMutablyBorrowed)
    );
}

#[test]
fn shared_count_saturates() {
    assert_eq!(
        BorrowFlag::Shared(usize::MAX).acquire_shared(),
        Err(BorrowError::TooManyBorrows)
    );
}

#[test]
fn unmatched_releases_refused() {
    assert_eq!(BorrowFlag::Unused.release_shared(), Err(BorrowError::NotBorrowed));
    assert_eq!(BorrowFlag::Exclusive.release_shared(), Err(BorrowError::NotBorrowed));
    assert_eq!(BorrowFlag::Unused.release_exclusive(), Err(BorrowError::NotBorrowed));
    assert_eq!(BorrowFlag::Shared(2).release_exclusive(), Err(BorrowError::NotBorrowed));
}
