//! Events common to both core Wasm and components.

use vstd::prelude::*;
use crate::events::{EventError, EventErrorKind, RRFuncArgVals, ResultEvent};
use crate::settings::RecordSettings;

verus! {

/// A call event from Wasm (core or component) into the host.
///
/// Matches with [`HostFuncReturnEvent`].
#[derive(Debug, Clone)]
pub struct HostFuncEntryEvent {
    /// Raw values passed across the call/return boundary.
    pub args: RRFuncArgVals,
}

/// A return event after a host call to Wasm (core or component).
///
/// Matches with [`HostFuncEntryEvent`].
#[derive(Debug, Clone)]
pub struct HostFuncReturnEvent {
    /// Raw values passed across the call/return boundary.
    pub args: RRFuncArgVals,
}

/// Error returned by a Wasm function.
#[derive(Debug, Clone)]
pub struct WasmFuncReturnError(String);

impl EventError for WasmFuncReturnError {
    closed spec fn message(&self) -> Seq<char> {
        self.0@
    }

    open spec fn error_kind() -> EventErrorKind {
        EventErrorKind::WasmFuncReturn
    }

    fn new(t: String) -> (r: Self) {
        WasmFuncReturnError(t)
    }

    fn get(&self) -> (r: &String) {
        &self.0
    }

    fn kind() -> (k: EventErrorKind) {
        EventErrorKind::WasmFuncReturn
    }
}

/// A return event from a Wasm function (core or component) to the host.
#[derive(Debug, Clone)]
pub struct WasmFuncReturnEvent(pub ResultEvent<RRFuncArgVals, WasmFuncReturnError>);

/// Signature of a recorded trace.
#[derive(Debug, Clone)]
pub struct TraceSignatureEvent {
    /// Checksum of the trace contents.
    ///
    /// This can be used to verify integrity of the trace during replay.
    pub checksum: String,
    /// Settings used during trace recording.
    pub settings: RecordSettings,
}

/// A diagnostic event for custom messages.
#[derive(Debug, Clone)]
pub struct CustomMessageEvent(pub String);

impl From<String> for CustomMessageEvent {
    fn from(v: String) -> (r: Self) {
        CustomMessageEvent(v)
    }
}

impl vstd::std_specs::convert::FromSpecImpl<String> for CustomMessageEvent {
    open spec fn obeys_from_spec() -> bool {
        true
    }

    open spec fn from_spec(v: String) -> Self {
        CustomMessageEvent(v)
    }
}

impl PartialEq for HostFuncEntryEvent {
    fn eq(&self, other: &Self) -> (r: bool) {
        self.args == other.args
    }
}

impl vstd::std_specs::cmp::PartialEqSpecImpl for HostFuncEntryEvent {
    open spec fn obeys_eq_spec() -> bool {
        true
    }

    open spec fn eq_spec(&self, other: &Self) -> bool {
        self.args.bytes@ == other.args.bytes@ && self.args.sizes@ == other.args.sizes@
    }
}

} // verus!
