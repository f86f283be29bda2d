use vstd::prelude::*;

verus! {

/// The amount that a user holds deposited in one pool.
#[derive(Debug, Clone, Copy, PartialEq, Eq)]
pub struct UserDepositAccount {
    pub amount: u64,
}

} // verus!
