use vstd::prelude::*;

verus! {

/// Logical access state of the value embedded in a host object.
///
/// `Shared(n)` counts the shared borrows that are live; a well-formed flag
/// never holds `Shared(0)`.
#[derive(Clone, Copy, Debug, PartialEq, Eq, Structural)]
pub enum BorrowFlag {
    Unused,
    Shared(usize),
    Exclusive,
}

/// Why an access request on a borrow flag was refused.
#[derive(Clone, Copy, Debug, PartialEq, Eq, Structural)]
pub enum BorrowError {
    /// A shared borrow was requested while an exclusive one is held.
    AlreadyMutablyBorrowed,
    /// An exclusive borrow was requested while some borrow is held.
    AlreadyBorrowed,
    /// The shared count cannot grow any further.
    TooManyBorrows,
    /// A release did not match a borrow that is held.
    NotBorrowed,
}

impl BorrowFlag {
    pub open spec fn wf(self) -> bool {
        match self {
            BorrowFlag::Shared(n) => n > 0,
            _ => true,
        }
    }

    pub open spec fn spec_acquire_shared(self) -> Result<BorrowFlag, BorrowError> {
        match self {
            BorrowFlag::Unused => Ok(BorrowFlag::Shared(1)),
            BorrowFlag::Shared(n) => if n < usize::MAX {
                Ok(BorrowFlag::Shared((n + 1) as usize))
            } else {
                Err(BorrowError::TooManyBorrows)
            },
            BorrowFlag::Exclusive => Err(BorrowError::AlreadyMutablyBorrowed),
        }
    }

    pub open spec fn spec_release_shared(self) -> Result<BorrowFlag, BorrowError> {
        match self {
            BorrowFlag::Shared(n) => if n == 1 {
                Ok(BorrowFlag::Unused)
            } else if n > 1 {
                Ok(BorrowFlag::Shared((n - 1) as usize))
            } else {
                Err(BorrowError::NotBorrowed)
            },
            _ => Err(BorrowError::NotBorrowed),
        }
    }

    pub open spec fn spec_acquire_exclusive(self) -> Result<BorrowFlag, BorrowError> {
        match self {
            BorrowFlag::Unused => Ok(BorrowFlag::Exclusive),
            _ => Err(BorrowError::AlreadyBorrowed),
        }
    }

    pub open spec fn spec_release_exclusive(self) -> Result<BorrowFlag, BorrowError> {
        match self {
            BorrowFlag::Exclusive => Ok(BorrowFlag::Unused),
            _ => Err(BorrowError::NotBorrowed),
        }
    }

    /// Takes one more shared borrow: refused while an exclusive borrow is held.
    pub fn acquire_shared(self) -> (r: Result<BorrowFlag, BorrowError>)
        ensures
            r == self.spec_acquire_shared(),
            self.wf() ==> (r matches Ok(f) ==> f.wf()),
    {
        match self {
            BorrowFlag::Unused => Ok(BorrowFlag::Shared(1)),
            BorrowFlag::Shared(n) => if n < usize::MAX {
                Ok(BorrowFlag::Shared(n + 1))
            } else {
                Err(BorrowError::TooManyBorrows)
            },
            BorrowFlag::Exclusive => Err(BorrowError::AlreadyMutablyBorrowed),
        }
    }

    /// Gives back one shared borrow.
    pub fn release_shared(self) -> (r: Result<BorrowFlag, BorrowError>)
        ensures
            r == self.spec_release_shared(),
            r matches Ok(f) ==> f.wf(),
    {
        match self {
            BorrowFlag::Shared(n) => if n == 1 {
                Ok(BorrowFlag::Unused)
            } else if n > 1 {
                Ok(BorrowFlag::Shared(n - 1))
            } else {
                Err(BorrowError::NotBorrowed)
            },
            _ => Err(BorrowError::NotBorrowed),
        }
    }

    /// Takes the exclusive borrow: refused while any borrow is held.
    pub fn acquire_exclusive(self) -> (r: Result<BorrowFlag, BorrowError>)
        ensures
            r == self.spec_acquire_exclusive(),
            r matches Ok(f) ==> f.wf(),
    {
        match self {
            BorrowFlag::Unused => Ok(BorrowFlag::Exclusive),
            _ => Err(BorrowError::AlreadyBorrowed),
        }
    }

    /// Gives back the exclusive borrow.
    pub fn release_exclusive(self) -> (r: Result<BorrowFlag, BorrowError>)
        ensures
            r == self.spec_release_exclusive(),
            r matches Ok(f) ==> f.wf(),
    {
        match self {
            BorrowFlag::Exclusive => Ok(BorrowFlag::Unused),
            _ => Err(BorrowError::NotBorrowed),
        }
    }
}

/// Every granted transition keeps the flag well formed, an exclusive borrow
/// excludes every other request, and releasing what was just acquired gives
/// back the state before.
pub proof fn lemma_borrow_transitions(f: BorrowFlag)
    requires
        f.wf(),
    ensures
        f.spec_acquire_shared() matches Ok(g) ==> g.wf() && g.spec_release_shared() == Ok::<
            BorrowFlag,
            BorrowError,
        >(f),
        f.spec_acquire_exclusive() matches Ok(g) ==> g.wf() && g.spec_release_exclusive() == Ok::<
            BorrowFlag,
            BorrowError,
        >(f),
        f == BorrowFlag::Exclusive ==> f.spec_acquire_shared().is_err()
            && f.spec_acquire_exclusive().is_err(),
        f.spec_acquire_exclusive().is_ok() <==> f == BorrowFlag::Unused,
{
}

} // verus!
