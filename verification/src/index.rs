//! Index types that trace events carry: the index of an export of a component
//! and the index of a function of a core module.

use vstd::prelude::*;

verus! {

/// Index of an export of a component (the `u32` behind
/// `wasmtime_environ::component::ExportIndex`).
#[derive(Debug, Clone, Copy, PartialEq, Eq, Structural, PartialOrd, Ord, Hash)]
pub struct ExportIndex(pub u32);

/// Index of a function (imported or defined) inside a core module (the `u32`
/// behind `wasmtime_environ::FuncIndex`).
#[derive(Debug, Clone, Copy, PartialEq, Eq, Structural, PartialOrd, Ord, Hash)]
pub struct FuncIndex(pub u32);

impl ExportIndex {
    /// The export index with the given value.
    pub fn from_u32(x: u32) -> (r: Self)
        ensures
            r.0 == x,
    {
        ExportIndex(x)
    }

    /// The value of this export index.
    pub fn as_u32(&self) -> (r: u32)
        ensures
            r == self.0,
    {
        self.0
    }
}

impl FuncIndex {
    /// The function index with the given value.
    pub fn from_u32(x: u32) -> (r: Self)
        ensures
            r.0 == x,
    {
        FuncIndex(x)
    }

    /// The value of this function index.
    pub fn as_u32(&self) -> (r: u32)
        ensures
            r == self.0,
    {
        self.0
    }
}

} // verus!
