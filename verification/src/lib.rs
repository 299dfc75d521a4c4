//! Joined owner/dependent storage with a verified lifecycle.
//!
//! The crate models a storage cell that keeps an *owner* value and a
//! *dependent* value derived from it together as a single unit, so that the
//! pair can be moved, stored and torn down as one. The dependent is produced
//! by a caller-supplied construction function that is given the stored owner,
//! and both values are then reachable only through the handle that owns the
//! pair.
//!
//! Three pieces make up the lifecycle:
//!
//! - [`cell::JoinedCell`], the joined record holding owner and dependent;
//! - [`cell::UnsafeSelfCell`], the handle that exclusively owns a fully
//!   initialized record and exposes the read, mutate and teardown operations;
//! - [`guard::OwnerAndCellDropGuard`], the guard that tracks the construction
//!   window in which the owner is already stored but the dependent is not,
//!   and releases exactly the owner if construction is abandoned there.
//!
//! The construction protocol that strings these together lives in
//! [`construct`].

pub mod cell;
pub mod construct;
pub mod guard;
