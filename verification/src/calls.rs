//! Host-call descriptors: the capability a generated wrapper binds to one
//! entry point of a contract, addressed by the contract's identifier and the
//! entry point's identifier.

use vstd::prelude::*;

use crate::hname::ScHname;

verus! {

/// The execution context handed to a wrapper of a mutating function.
pub struct ScFuncContext {}

/// The execution context handed to a wrapper of a read-only view.
pub struct ScViewContext {}

/// A call descriptor for a mutating function of a contract.
pub struct ScFunc {
    pub hcontract: ScHname,
    pub hfunction: ScHname,
}

impl ScFunc {
    /// Binds a function call to a contract identifier and a function
    /// identifier.
    pub fn new(hcontract: ScHname, hfunction: ScHname) -> (f: ScFunc)
        ensures
            f.hcontract == hcontract,
            f.hfunction == hfunction,
    {
        ScFunc { hcontract, hfunction }
    }
}

/// A call descriptor for a read-only view of a contract.
pub struct ScView {
    pub hcontract: ScHname,
    pub hfunction: ScHname,
}

impl ScView {
    /// Binds a view call to a contract identifier and a view identifier.
    pub fn new(hcontract: ScHname, hfunction: ScHname) -> (v: ScView)
        ensures
            v.hcontract == hcontract,
            v.hfunction == hfunction,
    {
        ScView { hcontract, hfunction }
    }
}

} // verus!
