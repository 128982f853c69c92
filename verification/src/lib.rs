//! Verified core of a Casper backend for Odra contracts: address encoding, call-stack
//! interpretation, entry-point code generation and the decisions of the test environment.
use vstd::prelude::*;

pub mod address;
pub mod backend;
pub mod call_stack;
pub mod codegen;
pub mod naming;
pub mod odra_address;
pub mod storage;
pub mod test_env;
pub mod text;

verus! {

/// Name of the virtual machine the test environment drives.
pub fn backend_name() -> (name: String)
    ensures
        name@ == "CasperVM"@,
{
    String::from_str("CasperVM")
}

} // verus!
