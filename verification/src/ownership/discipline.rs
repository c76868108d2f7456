//! A runtime model of the ownership and borrowing discipline: an
//! explicit ownership tag on a binding of a heap-owning text value, and
//! a per-value borrow ledger that enforces the exclusivity rule (any
//! number of read-only references, or exactly one exclusive reference,
//! never both kinds at once).
//!
//! The host language already rejects violations of these rules at
//! compile time; this model states the same rules as data so that they
//! can be exercised, and their invariants proved, explicitly.

use vstd::prelude::*;

verus! {

/// The borrow ledger of one value: no live references, a positive
/// number of read-only references, or the single exclusive reference.
#[derive(Clone, Copy, Debug)]
pub enum BorrowState {
    Free,
    Shared { readers: u64 },
    Exclusive,
}

/// Why a borrow request was refused.
#[derive(Clone, Copy, Debug)]
pub enum BorrowError {
    /// The exclusive reference is live; it excludes every other reference.
    ExclusiveHeld,
    /// Read-only references are live; they exclude the exclusive reference.
    SharedHeld,
    /// The read-only reference counter is at its capacity.
    SharedLimit,
}

impl BorrowState {
    /// A well-formed ledger never records the shared variant with a
    /// zero count.
    pub open spec fn wf(self) -> bool {
        self matches BorrowState::Shared { readers } ==> readers >= 1
    }

    /// How many read-only references are live.
    pub open spec fn live_shared(self) -> nat {
        match self {
            BorrowState::Free => 0,
            BorrowState::Shared { readers } => readers as nat,
            BorrowState::Exclusive => 0,
        }
    }

    /// How many exclusive references are live.
    pub open spec fn live_exclusive(self) -> nat {
        match self {
            BorrowState::Free => 0,
            BorrowState::Shared { readers: _ } => 0,
            BorrowState::Exclusive => 1,
        }
    }

    /// Acquires one more read-only reference. This succeeds exactly when
    /// no exclusive reference is live and the counter has room; a
    /// refused request leaves the ledger unchanged (fail fast, no state
    /// corruption).
    pub fn acquire_shared(&mut self) -> (r: Result<(), BorrowError>)
        requires
            old(self).wf(),
        ensures
            final(self).wf(),
            r is Ok <==> !(*old(self) is Exclusive) && old(self).live_shared() < u64::MAX,
            r is Ok ==> final(self).live_shared() == old(self).live_shared() + 1
                && final(self).live_exclusive() == 0,
            r is Err ==> *final(self) == *old(self),
            *old(self) is Exclusive ==> r == Err::<(), BorrowError>(BorrowError::ExclusiveHeld),
            !(*old(self) is Exclusive) && old(self).live_shared() == u64::MAX ==> r == Err::<
                (),
                BorrowError,
            >(BorrowError::SharedLimit),
    {
        match *self {
            BorrowState::Free => {
                *self = BorrowState::Shared { readers: 1 };
                Ok(())
            },
            BorrowState::Shared { readers } => {
                if readers == u64::MAX {
                    Err(BorrowError::SharedLimit)
                } else {
                    *self = BorrowState::Shared { readers: readers + 1 };
                    Ok(())
                }
            },
            BorrowState::Exclusive => Err(BorrowError::ExclusiveHeld),
        }
    }

    /// Acquires the exclusive reference. This succeeds exactly when no
    /// reference of either kind is live; a refused request names what
    /// blocked it and leaves the ledger unchanged.
    pub fn acquire_exclusive(&mut self) -> (r: Result<(), BorrowError>)
        requires
            old(self).wf(),
        ensures
            final(self).wf(),
            r is Ok <==> *old(self) is Free,
            r is Ok ==> *final(self) is Exclusive,
            r is Err ==> *final(self) == *old(self),
            *old(self) is Shared ==> r == Err::<(), BorrowError>(BorrowError::SharedHeld),
            *old(self) is Exclusive ==> r == Err::<(), BorrowError>(BorrowError::ExclusiveHeld),
    {
        match *self {
            BorrowState::Free => {
                *self = BorrowState::Exclusive;
                Ok(())
            },
            BorrowState::Shared { readers: _ } => Err(BorrowError::SharedHeld),
            BorrowState::Exclusive => Err(BorrowError::ExclusiveHeld),
        }
    }

    /// Releases one read-only reference at the end of its scope.
    pub fn release_shared(&mut self)
        requires
            old(self).wf(),
            old(self).live_shared() >= 1,
        ensures
            final(self).wf(),
            final(self).live_shared() == old(self).live_shared() - 1,
            final(self).live_exclusive() == 0,
    {
        match *self {
            BorrowState::Shared { readers } => {
                if readers == 1 {
                    *self = BorrowState::Free;
                } else {
                    *self = BorrowState::Shared { readers: readers - 1 };
                }
            },
            _ => unreached(),
        }
    }

    /// Releases the exclusive reference at the end of its scope: the
    /// value is free again, so a new reference of either kind may be
    /// acquired afterwards.
    pub fn release_exclusive(&mut self)
        requires
            old(self).wf(),
            old(self).live_exclusive() == 1,
        ensures
            final(self).wf(),
            *final(self) is Free,
    {
        *self = BorrowState::Free;
    }
}

/// The exclusivity law: a well-formed ledger never holds more than one
/// exclusive reference, and while one is live no other reference of
/// either kind is live; conversely, while read-only references are live
/// no exclusive reference is.
pub proof fn lemma_reference_exclusivity(s: BorrowState)
    requires
        s.wf(),
    ensures
        s.live_exclusive() <= 1,
        s.live_exclusive() == 1 ==> s.live_shared() == 0,
        s.live_shared() >= 1 ==> s.live_exclusive() == 0,
{
}

/// One binding of a heap-owning text value, with an explicit ownership
/// tag: the binding either still holds its value or the value has been
/// moved out of it.
#[derive(Debug)]
pub enum TextBinding {
    Holding { text: String },
    Moved,
}

impl TextBinding {
    /// A binding may be used only while it still holds its value.
    pub open spec fn usable(self) -> bool {
        self is Holding
    }

    /// The text the binding holds.
    pub open spec fn content(self) -> Seq<char>
        recommends
            self.usable(),
    {
        (self->text)@
    }

    /// Creates a binding that owns `text`.
    pub fn bind(text: String) -> (r: TextBinding)
        ensures
            r.usable(),
            r.content() == text@,
    {
        TextBinding::Holding { text }
    }

    /// Transfers ownership of the value out of this binding: the value
    /// itself is returned, and the source binding is left unusable, so
    /// every later access to it is rejected.
    pub fn move_out(&mut self) -> (r: String)
        requires
            old(self).usable(),
        ensures
            !final(self).usable(),
            r@ == old(self).content(),
    {
        let mut taken = TextBinding::Moved;
        core::mem::swap(self, &mut taken);
        match taken {
            TextBinding::Holding { text } => text,
            TextBinding::Moved => unreached(),
        }
    }

    /// Observes the held value through a read-only view; a moved-out
    /// binding cannot be read.
    pub fn read(&self) -> (r: &String)
        requires
            self.usable(),
        ensures
            r@ == self.content(),
    {
        match self {
            TextBinding::Holding { text } => text,
            TextBinding::Moved => unreached(),
        }
    }

    /// Whether the binding still holds its value.
    pub fn is_usable(&self) -> (b: bool)
        ensures
            b == self.usable(),
    {
        match self {
            TextBinding::Holding { text: _ } => true,
            TextBinding::Moved => false,
        }
    }
}

} // verus!
