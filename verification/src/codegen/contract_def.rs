//! The abstract layout of a contract that the generator works from.
use vstd::prelude::*;

use super::ty::ClType;

verus! {

/// An argument passed to an entry point.
pub struct Argument {
    pub ident: String,
    pub ty: ClType,
}

/// Whether an entry point is a constructor, callable once at installation, or a public one.
pub enum EntrypointType {
    Constructor,
    Public,
}

/// A contract's entry point.
pub struct Entrypoint {
    pub ident: String,
    pub args: Vec<Argument>,
    pub ret: ClType,
    pub ty: EntrypointType,
}

/// A contract: its name and its entry points.
pub struct ContractDef {
    pub ident: String,
    pub entrypoints: Vec<Entrypoint>,
}

} // verus!
