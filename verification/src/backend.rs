//! The functions the contract runtime offers to Odra contracts, as far as they decide
//! something.
use vstd::prelude::*;

use crate::address::address_bytes;
use crate::call_stack::{caller, frame_address, self_address, session_caller, CallStackElement};
use crate::odra_address::OdraAddress;

verus! {

/// The current block time, from `casper_contract::contract_api::runtime::get_blocktime`,
/// as a `u64`. Nothing is claimed of the value: it is the host's.
#[verifier::external_body]
pub fn get_block_time() -> (time: u64) {
    u64::from(casper_contract::contract_api::runtime::get_blocktime())
}

/// Returns the block time.
pub fn __get_block_time() -> (time: u64) {
    get_block_time()
}

/// Motes in one CSPR.
pub const MOTES_PER_CSPR: u64 = 1_000_000_000;

/// Returns the value that represents one CSPR: 1 CSPR = 1,000,000,000 motes.
pub fn __one_token() -> (motes: u64)
    ensures
        motes == 1_000_000_000,
{
    MOTES_PER_CSPR
}

/// Returns the contract's session caller, read from the call stack `stack`, as an Odra
/// address; `None` where the frame below the top is not session code, or is missing.
pub fn __caller(stack: &Vec<CallStackElement>) -> (address: Option<OdraAddress>)
    ensures
        session_caller(stack@) matches Some(c) ==> (address matches Some(a) && a@ == address_bytes(c)),
        session_caller(stack@) is None ==> address is None,
{
    match caller(stack) {
        Some(address) => Some(address.into_odra_address()),
        None => None,
    }
}

/// Returns the running contract's address, read from the call stack `stack`, as an Odra
/// address; `None` where the stack is empty.
pub fn __self_address(stack: &Vec<CallStackElement>) -> (address: Option<OdraAddress>)
    ensures
        stack@.len() >= 1 ==> (address matches Some(a) && a@ == address_bytes(
            frame_address(stack@[stack@.len() - 1]),
        )),
        stack@.len() == 0 ==> address is None,
{
    match self_address(stack) {
        Some(address) => Some(address.into_odra_address()),
        None => None,
    }
}

/// A 512-bit amount of motes as eight 64-bit limbs, least significant first.
#[derive(Clone, Copy, Debug, PartialEq, Eq)]
pub struct Motes(pub [u64; 8]);

/// Whether the amount is zero: every limb is zero.
pub open spec fn is_zero(amount: Motes) -> bool {
    forall|i: int| 0 <= i < 8 ==> #[trigger] amount.0@[i] == 0
}

/// The amount of native token attached to the call being executed.
#[derive(Debug)]
pub struct AttachedValue {
    pub amount: Motes,
}

impl AttachedValue {
    /// No amount attached.
    pub fn new() -> (value: Self)
        ensures
            is_zero(value.amount),
    {
        broadcast use vstd::array::group_array_axioms;

        AttachedValue { amount: Motes([0u64; 8]) }
    }

    /// Returns the amount attached to the current call.
    pub fn __attached_value(&self) -> (amount: Motes)
        ensures
            amount == self.amount,
    {
        self.amount
    }

    /// Stores the amount attached to the current call.
    pub fn set_attached_value(&mut self, amount: Motes)
        ensures
            final(self).amount == amount,
    {
        self.amount = amount;
    }

    /// Zeroes the amount attached to the current call.
    pub fn clear_attached_value(&mut self)
        ensures
            is_zero(final(self).amount),
    {
        broadcast use vstd::array::group_array_axioms;

        self.amount = Motes([0u64; 8]);
    }
}

} // verus!

