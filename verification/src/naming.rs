//! Names under which a contract's artefacts are stored.
use vstd::prelude::*;

verus! {

/// The named key under which the installer stores a contract's package hash.
pub open spec fn package_hash_key_text(name: Seq<char>) -> Seq<char> {
    name + "_package_hash"@
}

/// The file name of a contract's WASM module.
pub open spec fn wasm_file_text(name: Seq<char>) -> Seq<char> {
    name + ".wasm"@
}

/// The named key under which the package hash of contract `name` is stored.
pub fn package_hash_key(name: &str) -> (key: String)
    ensures
        key@ == package_hash_key_text(name@),
{
    let mut key = String::from_str(name);
    key.append("_package_hash");
    key
}

/// The file name of the WASM module of contract `name`.
pub fn wasm_file_name(name: &str) -> (file: String)
    ensures
        file@ == wasm_file_text(name@),
{
    let mut file = String::from_str(name);
    file.append(".wasm");
    file
}

} // verus!
