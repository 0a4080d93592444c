//! The stored models: accounts and their public profiles.

pub mod profile;
pub mod user;

use vstd::prelude::*;

verus! {

/// How a write passes the model's mass-assignment guard.
#[derive(Clone, Copy, Debug, PartialEq, Eq, Structural)]
pub enum Guard {
    /// Only the columns of the model's fillable set are let through.
    Fillable,
    /// The writer is trusted: every column is let through.
    Unguarded,
}

} // verus!
