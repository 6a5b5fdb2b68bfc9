//! Core Wasm module events.

use vstd::prelude::*;
use crate::checksum::WasmChecksum;
use crate::events::RRFuncArgVals;
use crate::index::FuncIndex;

verus! {

/// Representation of a core module instance identifier during record/replay.
#[derive(Copy, Clone, Debug, PartialEq, Eq, Structural, PartialOrd, Ord, Hash)]
pub struct RRModuleInstanceId(pub u32);

/// An instantiation event for a core Wasm module.
#[derive(Debug, Clone, Copy, Eq, PartialOrd, Ord)]
pub struct InstantiationEvent {
    /// Checksum of the bytecode used to instantiate the module.
    pub module: WasmChecksum,
    /// Instance ID for the instantiated module.
    pub instance: RRModuleInstanceId,
}

/// A call event from the host into a core Wasm function.
#[derive(Debug, Clone)]
pub struct WasmFuncEntryEvent {
    /// Instance ID of the module instance that exports the function.
    pub instance: RRModuleInstanceId,
    /// Index of the called function.
    pub func_index: FuncIndex,
    /// Raw values passed across the call boundary.
    pub args: RRFuncArgVals,
}

impl PartialEq for InstantiationEvent {
    fn eq(&self, other: &Self) -> (r: bool) {
        self.module.same_as(&other.module) && self.instance == other.instance
    }
}

impl vstd::std_specs::cmp::PartialEqSpecImpl for InstantiationEvent {
    open spec fn obeys_eq_spec() -> bool {
        true
    }

    open spec fn eq_spec(&self, other: &Self) -> bool {
        self.module@ == other.module@ && self.instance == other.instance
    }
}

} // verus!
