//! The joined record and the handle that owns it.
//!
//! A [`JoinedCell`] keeps an owner value and the dependent value derived from
//! it side by side as one record. An [`UnsafeSelfCell`] is the sole owner of
//! such a record once it is fully initialized; every later read, mutation and
//! teardown of the pair goes through the handle.
//!
//! The handle's name is a caution: a cell like this is ordinarily built on
//! raw joined storage whose every accessor is unsafe, with the obligations
//! left to the caller. Here the record is tracked as a plain value, the
//! destructive operations consume the handle, and each operation carries a
//! contract the verifier checks, so none of them can be misused silently.
//! Address stability — that references into the owner stay valid while the
//! handle moves — has no counterpart at the value level: a moved handle is
//! the same value, which is exactly what the contracts speak about.

use vstd::prelude::*;

verus! {

/// The joined record: an owner and the dependent derived from it, stored as
/// one unit so the pair moves and dies together.
pub struct JoinedCell<Owner, Dependent> {
    pub owner: Owner,
    pub dependent: Dependent,
}

/// The handle that exclusively owns one fully initialized [`JoinedCell`].
///
/// Reads hand out shared references into the record, mutation hands out the
/// whole pair, and the two teardown operations ([`Self::drop_joined`] and
/// [`Self::into_owner`]) consume the handle, so no operation can follow them.
/// Whether a handle may be sent to or shared with another thread follows the
/// owner and dependent types themselves: the handle stores the pair directly
/// and adds no sharing of its own.
pub struct UnsafeSelfCell<Owner, Dependent> {
    joined: JoinedCell<Owner, Dependent>,
}

impl<Owner, Dependent> View for UnsafeSelfCell<Owner, Dependent> {
    type V = JoinedCell<Owner, Dependent>;

    closed spec fn view(&self) -> JoinedCell<Owner, Dependent> {
        self.joined
    }
}

/// Runs `value`'s destructor here and now. Teardown routines call this so
/// that the order in which the record's fields are destroyed is written out
/// rather than left to scope exit.
pub(crate) fn destroy<T>(value: T) {
    let _ = value;
}

impl<Owner, Dependent> UnsafeSelfCell<Owner, Dependent> {
    /// Wraps a fully initialized joined record. The handle becomes the
    /// record's only owner; all further access goes through it.
    pub fn new(joined: JoinedCell<Owner, Dependent>) -> (cell: Self)
        ensures
            cell@ == joined,
    {
        UnsafeSelfCell { joined }
    }

    /// Reads the owner. The result is exactly the stored owner, and the
    /// handle is untouched, so any number of reads in any order all see the
    /// same value.
    pub fn borrow_owner(&self) -> (owner: &Owner)
        ensures
            *owner == self@.owner,
    {
        &self.joined.owner
    }

    /// Reads the dependent. The result is exactly the stored dependent, and
    /// the handle is untouched.
    pub fn borrow_dependent(&self) -> (dependent: &Dependent)
        ensures
            *dependent == self@.dependent,
    {
        &self.joined.dependent
    }

    /// Hands out the whole pair for mutation. The handle afterwards holds
    /// whatever record the caller leaves behind; keeping the dependent
    /// consistent with the owner across such an edit is the caller's
    /// responsibility, stated nowhere but here.
    pub fn borrow_mut(&mut self) -> (joined: &mut JoinedCell<Owner, Dependent>)
        ensures
            *joined == old(self)@,
            final(self)@ == *final(joined),
    {
        &mut self.joined
    }

    /// Tears the pair down: destroys the dependent first, then the owner.
    /// The dependent was derived from the owner, so it goes first, unwinding
    /// the construction order. Consuming the handle makes this the last
    /// operation on it.
    pub fn drop_joined(self) {
        let UnsafeSelfCell { joined } = self;
        let JoinedCell { owner, dependent } = joined;
        destroy(dependent);
        destroy(owner);
    }

    /// Takes the owner back out: destroys only the dependent and returns the
    /// owner by value, so the owner's destructor is left to run exactly once,
    /// at the caller's hands. Consuming the handle makes this the last
    /// operation on it.
    pub fn into_owner(self) -> (owner: Owner)
        ensures
            owner == self@.owner,
    {
        let UnsafeSelfCell { joined } = self;
        let JoinedCell { owner, dependent } = joined;
        destroy(dependent);
        owner
    }
}

} // verus!
