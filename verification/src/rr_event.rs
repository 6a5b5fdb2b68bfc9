//! The unified trace event, and its conversions to and from the specific
//! event types.

use vstd::prelude::*;
use crate::error::ReplayError;
use vstd::std_specs::convert::{FromSpec, TryFromSpec};
use crate::events::{common_events, component_events, core_events};

verus! {

/// A single, unified, low-level recording/replay event.
///
/// This type is the narrow waist for serialization/deserialization.
/// Higher-level events (e.g. import calls consisting of lifts and lowers of
/// parameter/return types) may drop down to one or more `RREvent`s.
#[derive(Debug, Clone)]
pub enum RREvent {
    /// Nop event.
    Nop,
    /// Event signalling the end of a trace.
    Eof,
    /// The signature of the trace, enabling trace integrity during replay.
    ///
    /// This is always at the start of any valid trace.
    TraceSignature(common_events::TraceSignatureEvent),
    /// A custom message in the trace, useful for diagnostics.
    ///
    /// Does not affect trace replay functionality.
    CustomMessage(common_events::CustomMessageEvent),
    /// Return from host function (core or component) to Wasm.
    HostFuncReturn(common_events::HostFuncReturnEvent),
    /// Call into host function from Wasm (core or component).
    HostFuncEntry(common_events::HostFuncEntryEvent),
    /// Return from Wasm function (core or component) to host.
    WasmFuncReturn(common_events::WasmFuncReturnEvent),
    /// Instantiation of a core Wasm module.
    CoreWasmInstantiation(core_events::InstantiationEvent),
    /// Entry from host into a core Wasm function.
    CoreWasmFuncEntry(core_events::WasmFuncEntryEvent),
    /// Starting marker for a Wasm component function call from host.
    ///
    /// This is distinguished from `ComponentWasmFuncEntry` as there may be
    /// multiple lowering steps before actually entering the Wasm function.
    ComponentWasmFuncBegin(component_events::WasmFuncBeginEvent),
    /// Entry from the host into the Wasm component function.
    ComponentWasmFuncEntry(component_events::WasmFuncEntryEvent),
    /// Instantiation of a component.
    ComponentInstantiation(component_events::InstantiationEvent),
    /// Component ABI realloc call in linear wasm memory.
    ComponentReallocEntry(component_events::ReallocEntryEvent),
    /// Return from a type lowering operation.
    ComponentLowerFlatReturn(component_events::LowerFlatReturnEvent),
    /// Return from a store during a type lowering operation.
    ComponentLowerMemoryReturn(component_events::LowerMemoryReturnEvent),
    /// An attempt to obtain a mutable slice into Wasm linear memory.
    ComponentMemorySliceWrite(component_events::MemorySliceWriteEvent),
    /// Return from a component builtin.
    ComponentBuiltinReturn(component_events::BuiltinReturnEvent),
    /// Call to `post_return` (after the function call).
    ComponentPostReturn(component_events::PostReturnEvent),
    /// Return from Component ABI realloc call.
    ///
    /// Since realloc is deterministic, this event is optional.
    ComponentReallocReturn(component_events::ReallocReturnEvent),
    /// Call into type lowering for flat destination.
    ComponentLowerFlatEntry(component_events::LowerFlatEntryEvent),
    /// Call into type lowering for memory destination.
    ComponentLowerMemoryEntry(component_events::LowerMemoryEntryEvent),
    /// Call into a component builtin.
    ComponentBuiltinEntry(component_events::BuiltinEntryEvent),
}

impl RREvent {
    /// Whether the event is a diagnostic one, which replay skips.
    pub open spec fn spec_is_diagnostic(&self) -> bool {
        self is Nop || self is CustomMessage
    }

    /// Indicates whether current event is a diagnostic event.
    #[verifier::when_used_as_spec(spec_is_diagnostic)]
    pub fn is_diagnostic(&self) -> (r: bool)
        ensures
            r == self.spec_is_diagnostic(),
    {
        match self {
            RREvent::Nop | RREvent::CustomMessage(_) => true,
            _ => false,
        }
    }
}

impl From<common_events::TraceSignatureEvent> for RREvent {
    fn from(value: common_events::TraceSignatureEvent) -> (r: Self) {
        RREvent::TraceSignature(value)
    }
}

impl vstd::std_specs::convert::FromSpecImpl<common_events::TraceSignatureEvent> for RREvent {
    open spec fn obeys_from_spec() -> bool {
        true
    }

    open spec fn from_spec(v: common_events::TraceSignatureEvent) -> Self {
        RREvent::TraceSignature(v)
    }
}

impl TryFrom<RREvent> for common_events::TraceSignatureEvent {
    type Error = ReplayError;

    fn try_from(value: RREvent) -> (r: Result<Self, ReplayError>) {
        match value {
            RREvent::TraceSignature(x) => Ok(x),
            _ => Err(ReplayError::IncorrectEventVariant),
        }
    }
}

impl vstd::std_specs::convert::TryFromSpecImpl<RREvent> for common_events::TraceSignatureEvent {
    open spec fn obeys_try_from_spec() -> bool {
        true
    }

    open spec fn try_from_spec(v: RREvent) -> Result<Self, ReplayError> {
        match v {
            RREvent::TraceSignature(x) => Ok(x),
            _ => Err(ReplayError::IncorrectEventVariant),
        }
    }
}

impl From<common_events::CustomMessageEvent> for RREvent {
    fn from(value: common_events::CustomMessageEvent) -> (r: Self) {
        RREvent::CustomMessage(value)
    }
}

impl vstd::std_specs::convert::FromSpecImpl<common_events::CustomMessageEvent> for RREvent {
    open spec fn obeys_from_spec() -> bool {
        true
    }

    open spec fn from_spec(v: common_events::CustomMessageEvent) -> Self {
        RREvent::CustomMessage(v)
    }
}

impl TryFrom<RREvent> for common_events::CustomMessageEvent {
    type Error = ReplayError;

    fn try_from(value: RREvent) -> (r: Result<Self, ReplayError>) {
        match value {
            RREvent::CustomMessage(x) => Ok(x),
            _ => Err(ReplayError::IncorrectEventVariant),
        }
    }
}

impl vstd::std_specs::convert::TryFromSpecImpl<RREvent> for common_events::CustomMessageEvent {
    open spec fn obeys_try_from_spec() -> bool {
        true
    }

    open spec fn try_from_spec(v: RREvent) -> Result<Self, ReplayError> {
        match v {
            RREvent::CustomMessage(x) => Ok(x),
            _ => Err(ReplayError::IncorrectEventVariant),
        }
    }
}

impl From<common_events::HostFuncReturnEvent> for RREvent {
    fn from(value: common_events::HostFuncReturnEvent) -> (r: Self) {
        RREvent::HostFuncReturn(value)
    }
}

impl vstd::std_specs::convert::FromSpecImpl<common_events::HostFuncReturnEvent> for RREvent {
    open spec fn obeys_from_spec() -> bool {
        true
    }

    open spec fn from_spec(v: common_events::HostFuncReturnEvent) -> Self {
        RREvent::HostFuncReturn(v)
    }
}

impl TryFrom<RREvent> for common_events::HostFuncReturnEvent {
    type Error = ReplayError;

    fn try_from(value: RREvent) -> (r: Result<Self, ReplayError>) {
        match value {
            RREvent::HostFuncReturn(x) => Ok(x),
            _ => Err(ReplayError::IncorrectEventVariant),
        }
    }
}

impl vstd::std_specs::convert::TryFromSpecImpl<RREvent> for common_events::HostFuncReturnEvent {
    open spec fn obeys_try_from_spec() -> bool {
        true
    }

    open spec fn try_from_spec(v: RREvent) -> Result<Self, ReplayError> {
        match v {
            RREvent::HostFuncReturn(x) => Ok(x),
            _ => Err(ReplayError::IncorrectEventVariant),
        }
    }
}

impl From<common_events::HostFuncEntryEvent> for RREvent {
    fn from(value: common_events::HostFuncEntryEvent) -> (r: Self) {
        RREvent::HostFuncEntry(value)
    }
}

impl vstd::std_specs::convert::FromSpecImpl<common_events::HostFuncEntryEvent> for RREvent {
    open spec fn obeys_from_spec() -> bool {
        true
    }

    open spec fn from_spec(v: common_events::HostFuncEntryEvent) -> Self {
        RREvent::HostFuncEntry(v)
    }
}

impl TryFrom<RREvent> for common_events::HostFuncEntryEvent {
    type Error = ReplayError;

    fn try_from(value: RREvent) -> (r: Result<Self, ReplayError>) {
        match value {
            RREvent::HostFuncEntry(x) => Ok(x),
            _ => Err(ReplayError::IncorrectEventVariant),
        }
    }
}

impl vstd::std_specs::convert::TryFromSpecImpl<RREvent> for common_events::HostFuncEntryEvent {
    open spec fn obeys_try_from_spec() -> bool {
        true
    }

    open spec fn try_from_spec(v: RREvent) -> Result<Self, ReplayError> {
        match v {
            RREvent::HostFuncEntry(x) => Ok(x),
            _ => Err(ReplayError::IncorrectEventVariant),
        }
    }
}

impl From<common_events::WasmFuncReturnEvent> for RREvent {
    fn from(value: common_events::WasmFuncReturnEvent) -> (r: Self) {
        RREvent::WasmFuncReturn(value)
    }
}

impl vstd::std_specs::convert::FromSpecImpl<common_events::WasmFuncReturnEvent> for RREvent {
    open spec fn obeys_from_spec() -> bool {
        true
    }

    open spec fn from_spec(v: common_events::WasmFuncReturnEvent) -> Self {
        RREvent::WasmFuncReturn(v)
    }
}

impl TryFrom<RREvent> for common_events::WasmFuncReturnEvent {
    type Error = ReplayError;

    fn try_from(value: RREvent) -> (r: Result<Self, ReplayError>) {
        match value {
            RREvent::WasmFuncReturn(x) => Ok(x),
            _ => Err(ReplayError::IncorrectEventVariant),
        }
    }
}

impl vstd::std_specs::convert::TryFromSpecImpl<RREvent> for common_events::WasmFuncReturnEvent {
    open spec fn obeys_try_from_spec() -> bool {
        true
    }

    open spec fn try_from_spec(v: RREvent) -> Result<Self, ReplayError> {
        match v {
            RREvent::WasmFuncReturn(x) => Ok(x),
            _ => Err(ReplayError::IncorrectEventVariant),
        }
    }
}

impl From<core_events::InstantiationEvent> for RREvent {
    fn from(value: core_events::InstantiationEvent) -> (r: Self) {
        RREvent::CoreWasmInstantiation(value)
    }
}

impl vstd::std_specs::convert::FromSpecImpl<core_events::InstantiationEvent> for RREvent {
    open spec fn obeys_from_spec() -> bool {
        true
    }

    open spec fn from_spec(v: core_events::InstantiationEvent) -> Self {
        RREvent::CoreWasmInstantiation(v)
    }
}

impl TryFrom<RREvent> for core_events::InstantiationEvent {
    type Error = ReplayError;

    fn try_from(value: RREvent) -> (r: Result<Self, ReplayError>) {
        match value {
            RREvent::CoreWasmInstantiation(x) => Ok(x),
            _ => Err(ReplayError::IncorrectEventVariant),
        }
    }
}

impl vstd::std_specs::convert::TryFromSpecImpl<RREvent> for core_events::InstantiationEvent {
    open spec fn obeys_try_from_spec() -> bool {
        true
    }

    open spec fn try_from_spec(v: RREvent) -> Result<Self, ReplayError> {
        match v {
            RREvent::CoreWasmInstantiation(x) => Ok(x),
            _ => Err(ReplayError::IncorrectEventVariant),
        }
    }
}

impl From<core_events::WasmFuncEntryEvent> for RREvent {
    fn from(value: core_events::WasmFuncEntryEvent) -> (r: Self) {
        RREvent::CoreWasmFuncEntry(value)
    }
}

impl vstd::std_specs::convert::FromSpecImpl<core_events::WasmFuncEntryEvent> for RREvent {
    open spec fn obeys_from_spec() -> bool {
        true
    }

    open spec fn from_spec(v: core_events::WasmFuncEntryEvent) -> Self {
        RREvent::CoreWasmFuncEntry(v)
    }
}

impl TryFrom<RREvent> for core_events::WasmFuncEntryEvent {
    type Error = ReplayError;

    fn try_from(value: RREvent) -> (r: Result<Self, ReplayError>) {
        match value {
            RREvent::CoreWasmFuncEntry(x) => Ok(x),
            _ => Err(ReplayError::IncorrectEventVariant),
        }
    }
}

impl vstd::std_specs::convert::TryFromSpecImpl<RREvent> for core_events::WasmFuncEntryEvent {
    open spec fn obeys_try_from_spec() -> bool {
        true
    }

    open spec fn try_from_spec(v: RREvent) -> Result<Self, ReplayError> {
        match v {
            RREvent::CoreWasmFuncEntry(x) => Ok(x),
            _ => Err(ReplayError::IncorrectEventVariant),
        }
    }
}

impl From<component_events::WasmFuncBeginEvent> for RREvent {
    fn from(value: component_events::WasmFuncBeginEvent) -> (r: Self) {
        RREvent::ComponentWasmFuncBegin(value)
    }
}

impl vstd::std_specs::convert::FromSpecImpl<component_events::WasmFuncBeginEvent> for RREvent {
    open spec fn obeys_from_spec() -> bool {
        true
    }

    open spec fn from_spec(v: component_events::WasmFuncBeginEvent) -> Self {
        RREvent::ComponentWasmFuncBegin(v)
    }
}

impl TryFrom<RREvent> for component_events::WasmFuncBeginEvent {
    type Error = ReplayError;

    fn try_from(value: RREvent) -> (r: Result<Self, ReplayError>) {
        match value {
            RREvent::ComponentWasmFuncBegin(x) => Ok(x),
            _ => Err(ReplayError::IncorrectEventVariant),
        }
    }
}

impl vstd::std_specs::convert::TryFromSpecImpl<RREvent> for component_events::WasmFuncBeginEvent {
    open spec fn obeys_try_from_spec() -> bool {
        true
    }

    open spec fn try_from_spec(v: RREvent) -> Result<Self, ReplayError> {
        match v {
            RREvent::ComponentWasmFuncBegin(x) => Ok(x),
            _ => Err(ReplayError::IncorrectEventVariant),
        }
    }
}

impl From<component_events::WasmFuncEntryEvent> for RREvent {
    fn from(value: component_events::WasmFuncEntryEvent) -> (r: Self) {
        RREvent::ComponentWasmFuncEntry(value)
    }
}

impl vstd::std_specs::convert::FromSpecImpl<component_events::WasmFuncEntryEvent> for RREvent {
    open spec fn obeys_from_spec() -> bool {
        true
    }

    open spec fn from_spec(v: component_events::WasmFuncEntryEvent) -> Self {
        RREvent::ComponentWasmFuncEntry(v)
    }
}

impl TryFrom<RREvent> for component_events::WasmFuncEntryEvent {
    type Error = ReplayError;

    fn try_from(value: RREvent) -> (r: Result<Self, ReplayError>) {
        match value {
            RREvent::ComponentWasmFuncEntry(x) => Ok(x),
            _ => Err(ReplayError::IncorrectEventVariant),
        }
    }
}

impl vstd::std_specs::convert::TryFromSpecImpl<RREvent> for component_events::WasmFuncEntryEvent {
    open spec fn obeys_try_from_spec() -> bool {
        true
    }

    open spec fn try_from_spec(v: RREvent) -> Result<Self, ReplayError> {
        match v {
            RREvent::ComponentWasmFuncEntry(x) => Ok(x),
            _ => Err(ReplayError::IncorrectEventVariant),
        }
    }
}

impl From<component_events::InstantiationEvent> for RREvent {
    fn from(value: component_events::InstantiationEvent) -> (r: Self) {
        RREvent::ComponentInstantiation(value)
    }
}

impl vstd::std_specs::convert::FromSpecImpl<component_events::InstantiationEvent> for RREvent {
    open spec fn obeys_from_spec() -> bool {
        true
    }

    open spec fn from_spec(v: component_events::InstantiationEvent) -> Self {
        RREvent::ComponentInstantiation(v)
    }
}

impl TryFrom<RREvent> for component_events::InstantiationEvent {
    type Error = ReplayError;

    fn try_from(value: RREvent) -> (r: Result<Self, ReplayError>) {
        match value {
            RREvent::ComponentInstantiation(x) => Ok(x),
            _ => Err(ReplayError::IncorrectEventVariant),
        }
    }
}

impl vstd::std_specs::convert::TryFromSpecImpl<RREvent> for component_events::InstantiationEvent {
    open spec fn obeys_try_from_spec() -> bool {
        true
    }

    open spec fn try_from_spec(v: RREvent) -> Result<Self, ReplayError> {
        match v {
            RREvent::ComponentInstantiation(x) => Ok(x),
            _ => Err(ReplayError::IncorrectEventVariant),
        }
    }
}

impl From<component_events::ReallocEntryEvent> for RREvent {
    fn from(value: component_events::ReallocEntryEvent) -> (r: Self) {
        RREvent::ComponentReallocEntry(value)
    }
}

impl vstd::std_specs::convert::FromSpecImpl<component_events::ReallocEntryEvent> for RREvent {
    open spec fn obeys_from_spec() -> bool {
        true
    }

    open spec fn from_spec(v: component_events::ReallocEntryEvent) -> Self {
        RREvent::ComponentReallocEntry(v)
    }
}

impl TryFrom<RREvent> for component_events::ReallocEntryEvent {
    type Error = ReplayError;

    fn try_from(value: RREvent) -> (r: Result<Self, ReplayError>) {
        match value {
            RREvent::ComponentReallocEntry(x) => Ok(x),
            _ => Err(ReplayError::IncorrectEventVariant),
        }
    }
}

impl vstd::std_specs::convert::TryFromSpecImpl<RREvent> for component_events::ReallocEntryEvent {
    open spec fn obeys_try_from_spec() -> bool {
        true
    }

    open spec fn try_from_spec(v: RREvent) -> Result<Self, ReplayError> {
        match v {
            RREvent::ComponentReallocEntry(x) => Ok(x),
            _ => Err(ReplayError::IncorrectEventVariant),
        }
    }
}

impl From<component_events::LowerFlatReturnEvent> for RREvent {
    fn from(value: component_events::LowerFlatReturnEvent) -> (r: Self) {
        RREvent::ComponentLowerFlatReturn(value)
    }
}

impl vstd::std_specs::convert::FromSpecImpl<component_events::LowerFlatReturnEvent> for RREvent {
    open spec fn obeys_from_spec() -> bool {
        true
    }

    open spec fn from_spec(v: component_events::LowerFlatReturnEvent) -> Self {
        RREvent::ComponentLowerFlatReturn(v)
    }
}

impl TryFrom<RREvent> for component_events::LowerFlatReturnEvent {
    type Error = ReplayError;

    fn try_from(value: RREvent) -> (r: Result<Self, ReplayError>) {
        match value {
            RREvent::ComponentLowerFlatReturn(x) => Ok(x),
            _ => Err(ReplayError::IncorrectEventVariant),
        }
    }
}

impl vstd::std_specs::convert::TryFromSpecImpl<RREvent> for component_events::LowerFlatReturnEvent {
    open spec fn obeys_try_from_spec() -> bool {
        true
    }

    open spec fn try_from_spec(v: RREvent) -> Result<Self, ReplayError> {
        match v {
            RREvent::ComponentLowerFlatReturn(x) => Ok(x),
            _ => Err(ReplayError::IncorrectEventVariant),
        }
    }
}

impl From<component_events::LowerMemoryReturnEvent> for RREvent {
    fn from(value: component_events::LowerMemoryReturnEvent) -> (r: Self) {
        RREvent::ComponentLowerMemoryReturn(value)
    }
}

impl vstd::std_specs::convert::FromSpecImpl<component_events::LowerMemoryReturnEvent> for RREvent {
    open spec fn obeys_from_spec() -> bool {
        true
    }

    open spec fn from_spec(v: component_events::LowerMemoryReturnEvent) -> Self {
        RREvent::ComponentLowerMemoryReturn(v)
    }
}

impl TryFrom<RREvent> for component_events::LowerMemoryReturnEvent {
    type Error = ReplayError;

    fn try_from(value: RREvent) -> (r: Result<Self, ReplayError>) {
        match value {
            RREvent::ComponentLowerMemoryReturn(x) => Ok(x),
            _ => Err(ReplayError::IncorrectEventVariant),
        }
    }
}

impl vstd::std_specs::convert::TryFromSpecImpl<RREvent> for component_events::LowerMemoryReturnEvent {
    open spec fn obeys_try_from_spec() -> bool {
        true
    }

    open spec fn try_from_spec(v: RREvent) -> Result<Self, ReplayError> {
        match v {
            RREvent::ComponentLowerMemoryReturn(x) => Ok(x),
            _ => Err(ReplayError::IncorrectEventVariant),
        }
    }
}

impl From<component_events::MemorySliceWriteEvent> for RREvent {
    fn from(value: component_events::MemorySliceWriteEvent) -> (r: Self) {
        RREvent::ComponentMemorySliceWrite(value)
    }
}

impl vstd::std_specs::convert::FromSpecImpl<component_events::MemorySliceWriteEvent> for RREvent {
    open spec fn obeys_from_spec() -> bool {
        true
    }

    open spec fn from_spec(v: component_events::MemorySliceWriteEvent) -> Self {
        RREvent::ComponentMemorySliceWrite(v)
    }
}

impl TryFrom<RREvent> for component_events::MemorySliceWriteEvent {
    type Error = ReplayError;

    fn try_from(value: RREvent) -> (r: Result<Self, ReplayError>) {
        match value {
            RREvent::ComponentMemorySliceWrite(x) => Ok(x),
            _ => Err(ReplayError::IncorrectEventVariant),
        }
    }
}

impl vstd::std_specs::convert::TryFromSpecImpl<RREvent> for component_events::MemorySliceWriteEvent {
    open spec fn obeys_try_from_spec() -> bool {
        true
    }

    open spec fn try_from_spec(v: RREvent) -> Result<Self, ReplayError> {
        match v {
            RREvent::ComponentMemorySliceWrite(x) => Ok(x),
            _ => Err(ReplayError::IncorrectEventVariant),
        }
    }
}

impl From<component_events::BuiltinReturnEvent> for RREvent {
    fn from(value: component_events::BuiltinReturnEvent) -> (r: Self) {
        RREvent::ComponentBuiltinReturn(value)
    }
}

impl vstd::std_specs::convert::FromSpecImpl<component_events::BuiltinReturnEvent> for RREvent {
    open spec fn obeys_from_spec() -> bool {
        true
    }

    open spec fn from_spec(v: component_events::BuiltinReturnEvent) -> Self {
        RREvent::ComponentBuiltinReturn(v)
    }
}

impl TryFrom<RREvent> for component_events::BuiltinReturnEvent {
    type Error = ReplayError;

    fn try_from(value: RREvent) -> (r: Result<Self, ReplayError>) {
        match value {
            RREvent::ComponentBuiltinReturn(x) => Ok(x),
            _ => Err(ReplayError::IncorrectEventVariant),
        }
    }
}

impl vstd::std_specs::convert::TryFromSpecImpl<RREvent> for component_events::BuiltinReturnEvent {
    open spec fn obeys_try_from_spec() -> bool {
        true
    }

    open spec fn try_from_spec(v: RREvent) -> Result<Self, ReplayError> {
        match v {
            RREvent::ComponentBuiltinReturn(x) => Ok(x),
            _ => Err(ReplayError::IncorrectEventVariant),
        }
    }
}

impl From<component_events::PostReturnEvent> for RREvent {
    fn from(value: component_events::PostReturnEvent) -> (r: Self) {
        RREvent::ComponentPostReturn(value)
    }
}

impl vstd::std_specs::convert::FromSpecImpl<component_events::PostReturnEvent> for RREvent {
    open spec fn obeys_from_spec() -> bool {
        true
    }

    open spec fn from_spec(v: component_events::PostReturnEvent) -> Self {
        RREvent::ComponentPostReturn(v)
    }
}

impl TryFrom<RREvent> for component_events::PostReturnEvent {
    type Error = ReplayError;

    fn try_from(value: RREvent) -> (r: Result<Self, ReplayError>) {
        match value {
            RREvent::ComponentPostReturn(x) => Ok(x),
            _ => Err(ReplayError::IncorrectEventVariant),
        }
    }
}

impl vstd::std_specs::convert::TryFromSpecImpl<RREvent> for component_events::PostReturnEvent {
    open spec fn obeys_try_from_spec() -> bool {
        true
    }

    open spec fn try_from_spec(v: RREvent) -> Result<Self, ReplayError> {
        match v {
            RREvent::ComponentPostReturn(x) => Ok(x),
            _ => Err(ReplayError::IncorrectEventVariant),
        }
    }
}

impl From<component_events::ReallocReturnEvent> for RREvent {
    fn from(value: component_events::ReallocReturnEvent) -> (r: Self) {
        RREvent::ComponentReallocReturn(value)
    }
}

impl vstd::std_specs::convert::FromSpecImpl<component_events::ReallocReturnEvent> for RREvent {
    open spec fn obeys_from_spec() -> bool {
        true
    }

    open spec fn from_spec(v: component_events::ReallocReturnEvent) -> Self {
        RREvent::ComponentReallocReturn(v)
    }
}

impl TryFrom<RREvent> for component_events::ReallocReturnEvent {
    type Error = ReplayError;

    fn try_from(value: RREvent) -> (r: Result<Self, ReplayError>) {
        match value {
            RREvent::ComponentReallocReturn(x) => Ok(x),
            _ => Err(ReplayError::IncorrectEventVariant),
        }
    }
}

impl vstd::std_specs::convert::TryFromSpecImpl<RREvent> for component_events::ReallocReturnEvent {
    open spec fn obeys_try_from_spec() -> bool {
        true
    }

    open spec fn try_from_spec(v: RREvent) -> Result<Self, ReplayError> {
        match v {
            RREvent::ComponentReallocReturn(x) => Ok(x),
            _ => Err(ReplayError::IncorrectEventVariant),
        }
    }
}

impl From<component_events::LowerFlatEntryEvent> for RREvent {
    fn from(value: component_events::LowerFlatEntryEvent) -> (r: Self) {
        RREvent::ComponentLowerFlatEntry(value)
    }
}

impl vstd::std_specs::convert::FromSpecImpl<component_events::LowerFlatEntryEvent> for RREvent {
    open spec fn obeys_from_spec() -> bool {
        true
    }

    open spec fn from_spec(v: component_events::LowerFlatEntryEvent) -> Self {
        RREvent::ComponentLowerFlatEntry(v)
    }
}

impl TryFrom<RREvent> for component_events::LowerFlatEntryEvent {
    type Error = ReplayError;

    fn try_from(value: RREvent) -> (r: Result<Self, ReplayError>) {
        match value {
            RREvent::ComponentLowerFlatEntry(x) => Ok(x),
            _ => Err(ReplayError::IncorrectEventVariant),
        }
    }
}

impl vstd::std_specs::convert::TryFromSpecImpl<RREvent> for component_events::LowerFlatEntryEvent {
    open spec fn obeys_try_from_spec() -> bool {
        true
    }

    open spec fn try_from_spec(v: RREvent) -> Result<Self, ReplayError> {
        match v {
            RREvent::ComponentLowerFlatEntry(x) => Ok(x),
            _ => Err(ReplayError::IncorrectEventVariant),
        }
    }
}

impl From<component_events::LowerMemoryEntryEvent> for RREvent {
    fn from(value: component_events::LowerMemoryEntryEvent) -> (r: Self) {
        RREvent::ComponentLowerMemoryEntry(value)
    }
}

impl vstd::std_specs::convert::FromSpecImpl<component_events::LowerMemoryEntryEvent> for RREvent {
    open spec fn obeys_from_spec() -> bool {
        true
    }

    open spec fn from_spec(v: component_events::LowerMemoryEntryEvent) -> Self {
        RREvent::ComponentLowerMemoryEntry(v)
    }
}

impl TryFrom<RREvent> for component_events::LowerMemoryEntryEvent {
    type Error = ReplayError;

    fn try_from(value: RREvent) -> (r: Result<Self, ReplayError>) {
        match value {
            RREvent::ComponentLowerMemoryEntry(x) => Ok(x),
            _ => Err(ReplayError::IncorrectEventVariant),
        }
    }
}

impl vstd::std_specs::convert::TryFromSpecImpl<RREvent> for component_events::LowerMemoryEntryEvent {
    open spec fn obeys_try_from_spec() -> bool {
        true
    }

    open spec fn try_from_spec(v: RREvent) -> Result<Self, ReplayError> {
        match v {
            RREvent::ComponentLowerMemoryEntry(x) => Ok(x),
            _ => Err(ReplayError::IncorrectEventVariant),
        }
    }
}

impl From<component_events::BuiltinEntryEvent> for RREvent {
    fn from(value: component_events::BuiltinEntryEvent) -> (r: Self) {
        RREvent::ComponentBuiltinEntry(value)
    }
}

impl vstd::std_specs::convert::FromSpecImpl<component_events::BuiltinEntryEvent> for RREvent {
    open spec fn obeys_from_spec() -> bool {
        true
    }

    open spec fn from_spec(v: component_events::BuiltinEntryEvent) -> Self {
        RREvent::ComponentBuiltinEntry(v)
    }
}

impl TryFrom<RREvent> for component_events::BuiltinEntryEvent {
    type Error = ReplayError;

    fn try_from(value: RREvent) -> (r: Result<Self, ReplayError>) {
        match value {
            RREvent::ComponentBuiltinEntry(x) => Ok(x),
            _ => Err(ReplayError::IncorrectEventVariant),
        }
    }
}

impl vstd::std_specs::convert::TryFromSpecImpl<RREvent> for component_events::BuiltinEntryEvent {
    open spec fn obeys_try_from_spec() -> bool {
        true
    }

    open spec fn try_from_spec(v: RREvent) -> Result<Self, ReplayError> {
        match v {
            RREvent::ComponentBuiltinEntry(x) => Ok(x),
            _ => Err(ReplayError::IncorrectEventVariant),
        }
    }
}

/// Replay skips exactly the no-op and custom-message events: every other
/// event, the end-of-trace marker aside, is functional and reaches replay.
pub proof fn lemma_diagnostic_events(e: RREvent)
    ensures
        e.spec_is_diagnostic() <==> (e is Nop || e is CustomMessage),
{
}

/// Every event type goes into the unified event and back unchanged, its
/// unified event is never the end-of-trace marker, and only a custom message
/// is diagnostic: what a recorder records reaches replay as itself.
pub proof fn lemma_event_conversions_roundtrip(
    x0: common_events::TraceSignatureEvent,
    x1: common_events::CustomMessageEvent,
    x2: common_events::HostFuncReturnEvent,
    x3: common_events::HostFuncEntryEvent,
    x4: common_events::WasmFuncReturnEvent,
    x5: core_events::InstantiationEvent,
    x6: core_events::WasmFuncEntryEvent,
    x7: component_events::WasmFuncBeginEvent,
    x8: component_events::WasmFuncEntryEvent,
    x9: component_events::InstantiationEvent,
    x10: component_events::ReallocEntryEvent,
    x11: component_events::LowerFlatReturnEvent,
    x12: component_events::LowerMemoryReturnEvent,
    x13: component_events::MemorySliceWriteEvent,
    x14: component_events::BuiltinReturnEvent,
    x15: component_events::PostReturnEvent,
    x16: component_events::ReallocReturnEvent,
    x17: component_events::LowerFlatEntryEvent,
    x18: component_events::LowerMemoryEntryEvent,
    x19: component_events::BuiltinEntryEvent,
)
    ensures
        common_events::TraceSignatureEvent::try_from_spec(<RREvent as FromSpec<common_events::TraceSignatureEvent>>::from_spec(x0)) == Ok::<
            common_events::TraceSignatureEvent,
            ReplayError,
        >(x0),
        !<RREvent as FromSpec<common_events::TraceSignatureEvent>>::from_spec(x0).spec_is_diagnostic(),
        !(<RREvent as FromSpec<common_events::TraceSignatureEvent>>::from_spec(x0) is Eof),
        common_events::CustomMessageEvent::try_from_spec(<RREvent as FromSpec<common_events::CustomMessageEvent>>::from_spec(x1)) == Ok::<
            common_events::CustomMessageEvent,
            ReplayError,
        >(x1),
        !(<RREvent as FromSpec<common_events::CustomMessageEvent>>::from_spec(x1) is Eof),
        common_events::HostFuncReturnEvent::try_from_spec(<RREvent as FromSpec<common_events::HostFuncReturnEvent>>::from_spec(x2)) == Ok::<
            common_events::HostFuncReturnEvent,
            ReplayError,
        >(x2),
        !<RREvent as FromSpec<common_events::HostFuncReturnEvent>>::from_spec(x2).spec_is_diagnostic(),
        !(<RREvent as FromSpec<common_events::HostFuncReturnEvent>>::from_spec(x2) is Eof),
        common_events::HostFuncEntryEvent::try_from_spec(<RREvent as FromSpec<common_events::HostFuncEntryEvent>>::from_spec(x3)) == Ok::<
            common_events::HostFuncEntryEvent,
            ReplayError,
        >(x3),
        !<RREvent as FromSpec<common_events::HostFuncEntryEvent>>::from_spec(x3).spec_is_diagnostic(),
        !(<RREvent as FromSpec<common_events::HostFuncEntryEvent>>::from_spec(x3) is Eof),
        common_events::WasmFuncReturnEvent::try_from_spec(<RREvent as FromSpec<common_events::WasmFuncReturnEvent>>::from_spec(x4)) == Ok::<
            common_events::WasmFuncReturnEvent,
            ReplayError,
        >(x4),
        !<RREvent as FromSpec<common_events::WasmFuncReturnEvent>>::from_spec(x4).spec_is_diagnostic(),
        !(<RREvent as FromSpec<common_events::WasmFuncReturnEvent>>::from_spec(x4) is Eof),
        core_events::InstantiationEvent::try_from_spec(<RREvent as FromSpec<core_events::InstantiationEvent>>::from_spec(x5)) == Ok::<
            core_events::InstantiationEvent,
            ReplayError,
        >(x5),
        !<RREvent as FromSpec<core_events::InstantiationEvent>>::from_spec(x5).spec_is_diagnostic(),
        !(<RREvent as FromSpec<core_events::InstantiationEvent>>::from_spec(x5) is Eof),
        core_events::WasmFuncEntryEvent::try_from_spec(<RREvent as FromSpec<core_events::WasmFuncEntryEvent>>::from_spec(x6)) == Ok::<
            core_events::WasmFuncEntryEvent,
            ReplayError,
        >(x6),
        !<RREvent as FromSpec<core_events::WasmFuncEntryEvent>>::from_spec(x6).spec_is_diagnostic(),
        !(<RREvent as FromSpec<core_events::WasmFuncEntryEvent>>::from_spec(x6) is Eof),
        component_events::WasmFuncBeginEvent::try_from_spec(<RREvent as FromSpec<component_events::WasmFuncBeginEvent>>::from_spec(x7)) == Ok::<
            component_events::WasmFuncBeginEvent,
            ReplayError,
        >(x7),
        !<RREvent as FromSpec<component_events::WasmFuncBeginEvent>>::from_spec(x7).spec_is_diagnostic(),
        !(<RREvent as FromSpec<component_events::WasmFuncBeginEvent>>::from_spec(x7) is Eof),
        component_events::WasmFuncEntryEvent::try_from_spec(<RREvent as FromSpec<component_events::WasmFuncEntryEvent>>::from_spec(x8)) == Ok::<
            component_events::WasmFuncEntryEvent,
            ReplayError,
        >(x8),
        !<RREvent as FromSpec<component_events::WasmFuncEntryEvent>>::from_spec(x8).spec_is_diagnostic(),
        !(<RREvent as FromSpec<component_events::WasmFuncEntryEvent>>::from_spec(x8) is Eof),
        component_events::InstantiationEvent::try_from_spec(<RREvent as FromSpec<component_events::InstantiationEvent>>::from_spec(x9)) == Ok::<
            component_events::InstantiationEvent,
            ReplayError,
        >(x9),
        !<RREvent as FromSpec<component_events::InstantiationEvent>>::from_spec(x9).spec_is_diagnostic(),
        !(<RREvent as FromSpec<component_events::InstantiationEvent>>::from_spec(x9) is Eof),
        component_events::ReallocEntryEvent::try_from_spec(<RREvent as FromSpec<component_events::ReallocEntryEvent>>::from_spec(x10)) == Ok::<
            component_events::ReallocEntryEvent,
            ReplayError,
        >(x10),
        !<RREvent as FromSpec<component_events::ReallocEntryEvent>>::from_spec(x10).spec_is_diagnostic(),
        !(<RREvent as FromSpec<component_events::ReallocEntryEvent>>::from_spec(x10) is Eof),
        component_events::LowerFlatReturnEvent::try_from_spec(<RREvent as FromSpec<component_events::LowerFlatReturnEvent>>::from_spec(x11)) == Ok::<
            component_events::LowerFlatReturnEvent,
            ReplayError,
        >(x11),
        !<RREvent as FromSpec<component_events::LowerFlatReturnEvent>>::from_spec(x11).spec_is_diagnostic(),
        !(<RREvent as FromSpec<component_events::LowerFlatReturnEvent>>::from_spec(x11) is Eof),
        component_events::LowerMemoryReturnEvent::try_from_spec(<RREvent as FromSpec<component_events::LowerMemoryReturnEvent>>::from_spec(x12)) == Ok::<
            component_events::LowerMemoryReturnEvent,
            ReplayError,
        >(x12),
        !<RREvent as FromSpec<component_events::LowerMemoryReturnEvent>>::from_spec(x12).spec_is_diagnostic(),
        !(<RREvent as FromSpec<component_events::LowerMemoryReturnEvent>>::from_spec(x12) is Eof),
        component_events::MemorySliceWriteEvent::try_from_spec(<RREvent as FromSpec<component_events::MemorySliceWriteEvent>>::from_spec(x13)) == Ok::<
            component_events::MemorySliceWriteEvent,
            ReplayError,
        >(x13),
        !<RREvent as FromSpec<component_events::MemorySliceWriteEvent>>::from_spec(x13).spec_is_diagnostic(),
        !(<RREvent as FromSpec<component_events::MemorySliceWriteEvent>>::from_spec(x13) is Eof),
        component_events::BuiltinReturnEvent::try_from_spec(<RREvent as FromSpec<component_events::BuiltinReturnEvent>>::from_spec(x14)) == Ok::<
            component_events::BuiltinReturnEvent,
            ReplayError,
        >(x14),
        !<RREvent as FromSpec<component_events::BuiltinReturnEvent>>::from_spec(x14).spec_is_diagnostic(),
        !(<RREvent as FromSpec<component_events::BuiltinReturnEvent>>::from_spec(x14) is Eof),
        component_events::PostReturnEvent::try_from_spec(<RREvent as FromSpec<component_events::PostReturnEvent>>::from_spec(x15)) == Ok::<
            component_events::PostReturnEvent,
            ReplayError,
        >(x15),
        !<RREvent as FromSpec<component_events::PostReturnEvent>>::from_spec(x15).spec_is_diagnostic(),
        !(<RREvent as FromSpec<component_events::PostReturnEvent>>::from_spec(x15) is Eof),
        component_events::ReallocReturnEvent::try_from_spec(<RREvent as FromSpec<component_events::ReallocReturnEvent>>::from_spec(x16)) == Ok::<
            component_events::ReallocReturnEvent,
            ReplayError,
        >(x16),
        !<RREvent as FromSpec<component_events::ReallocReturnEvent>>::from_spec(x16).spec_is_diagnostic(),
        !(<RREvent as FromSpec<component_events::ReallocReturnEvent>>::from_spec(x16) is Eof),
        component_events::LowerFlatEntryEvent::try_from_spec(<RREvent as FromSpec<component_events::LowerFlatEntryEvent>>::from_spec(x17)) == Ok::<
            component_events::LowerFlatEntryEvent,
            ReplayError,
        >(x17),
        !<RREvent as FromSpec<component_events::LowerFlatEntryEvent>>::from_spec(x17).spec_is_diagnostic(),
        !(<RREvent as FromSpec<component_events::LowerFlatEntryEvent>>::from_spec(x17) is Eof),
        component_events::LowerMemoryEntryEvent::try_from_spec(<RREvent as FromSpec<component_events::LowerMemoryEntryEvent>>::from_spec(x18)) == Ok::<
            component_events::LowerMemoryEntryEvent,
            ReplayError,
        >(x18),
        !<RREvent as FromSpec<component_events::LowerMemoryEntryEvent>>::from_spec(x18).spec_is_diagnostic(),
        !(<RREvent as FromSpec<component_events::LowerMemoryEntryEvent>>::from_spec(x18) is Eof),
        component_events::BuiltinEntryEvent::try_from_spec(<RREvent as FromSpec<component_events::BuiltinEntryEvent>>::from_spec(x19)) == Ok::<
            component_events::BuiltinEntryEvent,
            ReplayError,
        >(x19),
        !<RREvent as FromSpec<component_events::BuiltinEntryEvent>>::from_spec(x19).spec_is_diagnostic(),
        !(<RREvent as FromSpec<component_events::BuiltinEntryEvent>>::from_spec(x19) is Eof),
        <RREvent as FromSpec<common_events::CustomMessageEvent>>::from_spec(x1).spec_is_diagnostic(),
{
}

} // verus!
