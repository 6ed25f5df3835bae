//! What an account is allowed to do.

use vstd::prelude::*;

verus! {

/// The role of an account.
#[derive(Debug, Clone, Copy, PartialEq, Eq, Structural)]
pub enum Role {
    /// An ordinary account, which is what registration creates.
    User,
    /// The administrator.
    Admin,
}

} // verus!
