//! The construction protocol.
//!
//! Building a cell runs through a fixed sequence: store the owner, take the
//! guard, build the dependent from a reference to the stored owner, write it
//! beside the owner, mark the record fully initialized, and wrap it in the
//! handle. The functions here drive that sequence for a caller-supplied
//! construction function, so that every caller gets the guard's protection
//! on the failure path without having to restate it.

use vstd::prelude::*;

use crate::cell::UnsafeSelfCell;
use crate::guard::OwnerAndCellDropGuard;

verus! {

/// Builds a cell from an owner and a construction function.
///
/// The construction function is applied to the stored owner, exactly once,
/// and the cell afterwards holds that owner and that result: every later read
/// of the cell sees the owner as given here and a dependent the construction
/// function could have produced from it.
pub fn new_cell<Owner, Dependent, F: FnOnce(&Owner) -> Dependent>(
    owner: Owner,
    make_dependent: F,
) -> (cell: UnsafeSelfCell<Owner, Dependent>)
    requires
        call_requires(make_dependent, (&owner,)),
    ensures
        cell@.owner == owner,
        call_ensures(make_dependent, (&owner,), cell@.dependent),
{
    let mut guard = OwnerAndCellDropGuard::new(owner);
    let dependent = make_dependent(guard.borrow_owner());
    guard.write_dependent(dependent);
    guard.mark_fully_init();
    UnsafeSelfCell::new(guard.into_joined())
}

/// Builds a cell from an owner and a construction function that may fail.
///
/// The construction function is applied to the stored owner, exactly once.
/// On success the cell holds that owner and the produced dependent, as in
/// [`new_cell`]; success comes if and only if the construction function
/// returned a dependent. On failure the guard releases the half-built
/// record — the owner is destroyed, the dependent never existed — and the
/// construction function's error is passed back out.
pub fn try_new_cell<Owner, Dependent, E, F: FnOnce(&Owner) -> Result<Dependent, E>>(
    owner: Owner,
    make_dependent: F,
) -> (result: Result<UnsafeSelfCell<Owner, Dependent>, E>)
    requires
        call_requires(make_dependent, (&owner,)),
    ensures
        match result {
            Ok(cell) => cell@.owner == owner && call_ensures(
                make_dependent,
                (&owner,),
                Ok(cell@.dependent),
            ),
            Err(e) => call_ensures(make_dependent, (&owner,), Err(e)),
        },
{
    let mut guard = OwnerAndCellDropGuard::new(owner);
    let attempt = make_dependent(guard.borrow_owner());
    match attempt {
        Ok(dependent) => {
            guard.write_dependent(dependent);
            guard.mark_fully_init();
            Ok(UnsafeSelfCell::new(guard.into_joined()))
        },
        Err(e) => {
            guard.dispose();
            Err(e)
        },
    }
}

/// Reads of one live handle all agree, however many there are and in
/// whatever order they happen: each owner read returns the handle's stored
/// owner and each dependent read its stored dependent, and the reading
/// operations leave the handle untouched. Together with the contract of
/// [`new_cell`] this pins every read after construction to the owner given
/// there and to the dependent the construction function produced from it.
pub proof fn lemma_repeated_reads_agree<Owner, Dependent>(
    cell: UnsafeSelfCell<Owner, Dependent>,
    owner_read_a: Owner,
    owner_read_b: Owner,
    dependent_read_a: Dependent,
    dependent_read_b: Dependent,
)
    requires
        owner_read_a == cell@.owner,
        owner_read_b == cell@.owner,
        dependent_read_a == cell@.dependent,
        dependent_read_b == cell@.dependent,
    ensures
        owner_read_a == owner_read_b,
        dependent_read_a == dependent_read_b,
{
}

/// Relocating a handle leaves every read unchanged: a moved handle is equal
/// as a value to the handle it was moved from, and both reads are functions
/// of that value alone.
pub proof fn lemma_moved_handle_reads_unchanged<Owner, Dependent>(
    original: UnsafeSelfCell<Owner, Dependent>,
    relocated: UnsafeSelfCell<Owner, Dependent>,
)
    requires
        relocated == original,
    ensures
        relocated@.owner == original@.owner,
        relocated@.dependent == original@.dependent,
{
}

/// Extracting the owner round-trips: whatever owner a cell was built around,
/// taking the owner back out returns exactly that value.
pub proof fn lemma_into_owner_round_trip<Owner, Dependent>(
    stored: Owner,
    cell: UnsafeSelfCell<Owner, Dependent>,
    extracted: Owner,
)
    requires
        cell@.owner == stored,
        extracted == cell@.owner,
    ensures
        extracted == stored,
{
}

} // verus!
