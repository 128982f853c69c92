//! Who is calling: addresses read from the runtime's call stack.
use vstd::prelude::*;

use crate::address::{AccountHash, CasperAddress, ContractPackageHash};

verus! {

/// One frame of the runtime's call stack.
#[derive(Clone, Copy, Debug, PartialEq, Eq)]
pub enum CallStackElement {
    /// Session code run by an account.
    Session { account_hash: AccountHash },
    /// Stored session code, run in the context of an account.
    StoredSession {
        account_hash: AccountHash,
        contract_package_hash: ContractPackageHash,
        contract_hash: [u8; 32],
    },
    /// A stored contract.
    StoredContract { contract_package_hash: ContractPackageHash, contract_hash: [u8; 32] },
}

/// The address a frame acts for: the account for session and stored session code, the
/// contract hash for a stored contract.
pub open spec fn frame_address(element: CallStackElement) -> CasperAddress {
    match element {
        CallStackElement::Session { account_hash } => CasperAddress::Account(account_hash),
        CallStackElement::StoredSession { account_hash, .. } => CasperAddress::Account(
            account_hash,
        ),
        CallStackElement::StoredContract { contract_hash, .. } => CasperAddress::Contract(
            ContractPackageHash(contract_hash),
        ),
    }
}

/// The caller that session-only code accepts: the account of the frame below the top, where
/// that frame is session code; nothing otherwise.
pub open spec fn session_caller(stack: Seq<CallStackElement>) -> Option<CasperAddress> {
    match frame_from_top(stack, 1) {
        Some(CallStackElement::Session { account_hash }) => Some(CasperAddress::Account(account_hash)),
        _ => None,
    }
}

/// The frame `n` places from the top of `stack` (the last frame is the top), if there is one.
pub open spec fn frame_from_top(stack: Seq<CallStackElement>, n: int) -> Option<CallStackElement> {
    if 0 <= n < stack.len() {
        Some(stack[stack.len() - 1 - n])
    } else {
        None
    }
}

/// Returns the address a call stack frame acts for.
///
/// Stored session code acts in the account's context, so the account's address is used;
/// a stored contract is addressed by its contract hash.
pub fn call_stack_element_to_address(call_stack_element: CallStackElement) -> (address: CasperAddress)
    ensures
        address == frame_address(call_stack_element),
{
    match call_stack_element {
        CallStackElement::Session { account_hash } => CasperAddress::from(account_hash),
        CallStackElement::StoredSession { account_hash, .. } => CasperAddress::from(account_hash),
        CallStackElement::StoredContract { contract_hash, .. } => CasperAddress::from(
            ContractPackageHash::new(contract_hash),
        ),
    }
}

/// The frame `n` places from the top of the call stack; `None` where the stack is not that deep.
pub fn take_call_stack_elem(stack: &Vec<CallStackElement>, n: usize) -> (frame: Option<CallStackElement>)
    ensures
        frame == frame_from_top(stack@, n as int),
{
    if n < stack.len() {
        Some(stack[stack.len() - 1 - n])
    } else {
        None
    }
}

/// The immediate session caller of the running code: the account of the frame below the top.
/// Only session code may call in: where that frame is stored session code or a stored
/// contract, or where there is no such frame, the call is refused with `None`.
pub fn caller(stack: &Vec<CallStackElement>) -> (address: Option<CasperAddress>)
    ensures
        address == session_caller(stack@),
        address is Some <==> (stack@.len() >= 2 && stack@[stack@.len() - 2] is Session),
{
    match take_call_stack_elem(stack, 1) {
        Some(second_elem) => match second_elem {
            CallStackElement::Session { .. } => Some(call_stack_element_to_address(second_elem)),
            _ => None,
        },
        None => None,
    }
}

/// The address of the running code: the top frame.
pub fn self_address(stack: &Vec<CallStackElement>) -> (address: Option<CasperAddress>)
    ensures
        stack@.len() >= 1 ==> address == Some(frame_address(stack@[stack@.len() - 1])),
        stack@.len() == 0 ==> address is None,
{
    match take_call_stack_elem(stack, 0) {
        Some(first_elem) => Some(call_stack_element_to_address(first_elem)),
        None => None,
    }
}

} // verus!
