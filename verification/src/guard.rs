//! The construction-window guard.
//!
//! Between the moment the owner is stored and the moment the dependent
//! derived from it is stored, the joined record exists only half-built. The
//! guard owns the record during exactly that window and tracks, in a single
//! flag, whether responsibility for cleanup still lies with it or has been
//! handed off. An abandoned construction releases exactly the owner — the
//! dependent was never written on that path — while a completed one hands
//! the finished record over untouched.

use vstd::prelude::*;

use crate::cell::destroy;
use crate::cell::JoinedCell;

verus! {

/// Guards a joined record whose owner is already stored while the dependent
/// may not be yet.
///
/// The record leaves the guard on one of two paths, each consuming it:
/// [`Self::into_joined`] hands the fully initialized record off once
/// [`Self::mark_fully_init`] has been called, and [`Self::dispose`] releases
/// an abandoned construction by destroying exactly the owner.
pub struct OwnerAndCellDropGuard<Owner, Dependent> {
    fully_init: bool,
    owner: Owner,
    dependent: Option<Dependent>,
}

impl<Owner, Dependent> OwnerAndCellDropGuard<Owner, Dependent> {
    /// The owner stored when the guard was taken. It never changes while the
    /// guard lives.
    pub closed spec fn owner_spec(&self) -> Owner {
        self.owner
    }

    /// The dependent slot: `None` until [`Self::write_dependent`] fills it.
    pub closed spec fn dependent_spec(&self) -> Option<Dependent> {
        self.dependent
    }

    /// Whether cleanup responsibility has been handed off to whatever wraps
    /// the finished record.
    pub closed spec fn is_fully_init(&self) -> bool {
        self.fully_init
    }

    /// Well-formedness: the flag is set only after the dependent slot was
    /// written, so a record handed off as fully initialized really is.
    pub open spec fn wf(&self) -> bool {
        self.is_fully_init() ==> self.dependent_spec() is Some
    }

    /// Begins guarding a record that holds the owner and nothing else.
    pub fn new(owner: Owner) -> (guard: Self)
        ensures
            guard.owner_spec() == owner,
            guard.dependent_spec() is None,
            !guard.is_fully_init(),
    {
        OwnerAndCellDropGuard { fully_init: false, owner, dependent: None }
    }

    /// Reads the stored owner, so the dependent can be built from it while
    /// the guard keeps it in place.
    pub fn borrow_owner(&self) -> (owner: &Owner)
        ensures
            *owner == self.owner_spec(),
    {
        &self.owner
    }

    /// Stores the freshly built dependent beside the owner. The slot is
    /// written exactly once, before the handoff is marked.
    pub fn write_dependent(&mut self, dependent: Dependent)
        requires
            old(self).dependent_spec() is None,
            !old(self).is_fully_init(),
        ensures
            final(self).owner_spec() == old(self).owner_spec(),
            final(self).dependent_spec() == Some(dependent),
            !final(self).is_fully_init(),
    {
        self.dependent = Some(dependent);
    }

    /// Records that the record is fully initialized, passing cleanup
    /// responsibility on. Called exactly once, immediately after the
    /// dependent has been written.
    pub fn mark_fully_init(&mut self)
        requires
            old(self).dependent_spec() is Some,
            !old(self).is_fully_init(),
        ensures
            final(self).is_fully_init(),
            final(self).owner_spec() == old(self).owner_spec(),
            final(self).dependent_spec() == old(self).dependent_spec(),
    {
        self.fully_init = true;
    }

    /// Hands the finished record off, ending the construction window. This is
    /// the fully-initialized arm of the guard's release: nothing is destroyed,
    /// and whatever wraps the record owns its cleanup from here on.
    pub fn into_joined(self) -> (joined: JoinedCell<Owner, Dependent>)
        requires
            self.is_fully_init(),
            self.wf(),
        ensures
            joined.owner == self.owner_spec(),
            Some(joined.dependent) == self.dependent_spec(),
    {
        let OwnerAndCellDropGuard { fully_init: _, owner, dependent } = self;
        JoinedCell { owner, dependent: dependent.unwrap() }
    }

    /// Releases an abandoned construction. This is the other arm of the
    /// guard's release, taken when building the dependent failed: the
    /// dependent slot was never written, so exactly the owner is destroyed
    /// and the record is gone — the dependent's destructor cannot run, and
    /// the owner's runs once, here.
    pub fn dispose(self)
        requires
            !self.is_fully_init(),
            self.dependent_spec() is None,
    {
        let OwnerAndCellDropGuard { fully_init: _, owner, dependent: _ } = self;
        destroy(owner);
    }
}

} // verus!
