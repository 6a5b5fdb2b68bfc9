//! Component model events.

use vstd::prelude::*;
use crate::checksum::WasmChecksum;
use crate::events::{EventError, EventErrorKind, RRFuncArgVals, ResultEvent};
use crate::index::ExportIndex;

verus! {

/// Declares `wasmtime_environ::component::InterfaceType` to Verus as an
/// opaque type: lowering events carry the interface type through unread.
#[verifier::external_type_specification]
#[verifier::external_body]
pub struct ExInterfaceType(wasmtime_environ::component::InterfaceType);

/// Representation of a component instance identifier during record/replay.
///
/// This ID is tied to component instantiation events in the trace, and used
/// during replay to refer to specific component instances.
#[derive(Copy, Clone, Debug, PartialEq, Eq, Structural, PartialOrd, Ord, Hash)]
pub struct RRComponentInstanceId(pub u32);

/// Beginning marker for a Wasm component function call from host.
#[derive(Debug, Clone, Copy, PartialEq, Eq, Structural)]
pub struct WasmFuncBeginEvent {
    /// Instance ID for the component instance.
    pub instance: RRComponentInstanceId,
    /// Export index for the invoked function.
    pub func_index: ExportIndex,
}

/// An instantiation event for a Wasm component.
#[derive(Debug, Clone, Copy, Eq, PartialOrd, Ord)]
pub struct InstantiationEvent {
    /// Checksum of the bytecode used to instantiate the component.
    pub component: WasmChecksum,
    /// Instance ID for the instantiated component.
    pub instance: RRComponentInstanceId,
}

/// A call to `post_return` (after the function call).
#[derive(Debug, Clone, Copy)]
pub struct PostReturnEvent {
    /// Instance ID for the component instance.
    pub instance: RRComponentInstanceId,
    /// Export index for the function on which post_return is invoked.
    pub func_index: ExportIndex,
}

/// A call event from Host into a Wasm component function.
#[derive(Debug, Clone)]
pub struct WasmFuncEntryEvent {
    /// Raw values passed across call boundary.
    pub args: RRFuncArgVals,
}

/// A reallocation call event in the Wasm Component Model canonical ABI.
#[derive(Debug, Clone, Copy)]
pub struct ReallocEntryEvent {
    pub old_addr: usize,
    pub old_size: usize,
    pub old_align: u32,
    pub new_size: usize,
}

/// Entry to a type lowering invocation to flat destination.
#[derive(Debug, Clone, Copy)]
pub struct LowerFlatEntryEvent {
    pub ty: wasmtime_environ::component::InterfaceType,
}

/// Entry to type lowering invocation to destination in memory.
#[derive(Debug, Clone, Copy)]
pub struct LowerMemoryEntryEvent {
    pub ty: wasmtime_environ::component::InterfaceType,
    pub offset: usize,
}

/// A write to a mutable slice of Wasm linear memory by the host. This is the
/// fundamental representation of host-written data to Wasm and is usually
/// performed during lowering of a component type.
#[derive(Debug, Clone)]
pub struct MemorySliceWriteEvent {
    pub offset: usize,
    pub bytes: Vec<u8>,
}

/// Error of a reallocation call.
#[derive(Debug, Clone)]
pub struct ReallocError(String);

/// Error of a type lowering to a flat destination.
#[derive(Debug, Clone)]
pub struct LowerFlatError(String);

/// Error of a type lowering to a destination in memory.
#[derive(Debug, Clone)]
pub struct LowerMemoryError(String);

/// Error of a component builtin.
#[derive(Debug, Clone)]
pub struct BuiltinError(String);

impl EventError for ReallocError {
    closed spec fn message(&self) -> Seq<char> {
        self.0@
    }

    open spec fn error_kind() -> EventErrorKind {
        EventErrorKind::Realloc
    }

    fn new(t: String) -> (r: Self) {
        ReallocError(t)
    }

    fn get(&self) -> (r: &String) {
        &self.0
    }

    fn kind() -> (k: EventErrorKind) {
        EventErrorKind::Realloc
    }
}

impl EventError for LowerFlatError {
    closed spec fn message(&self) -> Seq<char> {
        self.0@
    }

    open spec fn error_kind() -> EventErrorKind {
        EventErrorKind::LowerFlat
    }

    fn new(t: String) -> (r: Self) {
        LowerFlatError(t)
    }

    fn get(&self) -> (r: &String) {
        &self.0
    }

    fn kind() -> (k: EventErrorKind) {
        EventErrorKind::LowerFlat
    }
}

impl EventError for LowerMemoryError {
    closed spec fn message(&self) -> Seq<char> {
        self.0@
    }

    open spec fn error_kind() -> EventErrorKind {
        EventErrorKind::LowerMemory
    }

    fn new(t: String) -> (r: Self) {
        LowerMemoryError(t)
    }

    fn get(&self) -> (r: &String) {
        &self.0
    }

    fn kind() -> (k: EventErrorKind) {
        EventErrorKind::LowerMemory
    }
}

impl EventError for BuiltinError {
    closed spec fn message(&self) -> Seq<char> {
        self.0@
    }

    open spec fn error_kind() -> EventErrorKind {
        EventErrorKind::Builtin
    }

    fn new(t: String) -> (r: Self) {
        BuiltinError(t)
    }

    fn get(&self) -> (r: &String) {
        &self.0
    }

    fn kind() -> (k: EventErrorKind) {
        EventErrorKind::Builtin
    }
}

/// Return from a reallocation call in the Component Model canonical ABI,
/// providing the address of allocation if successful.
#[derive(Debug, Clone)]
pub struct ReallocReturnEvent(pub ResultEvent<usize, ReallocError>);

/// Return from type lowering to flat destination.
#[derive(Debug, Clone)]
pub struct LowerFlatReturnEvent(pub ResultEvent<(), LowerFlatError>);

/// Return from type lowering to destination in memory.
#[derive(Debug, Clone)]
pub struct LowerMemoryReturnEvent(pub ResultEvent<(), LowerMemoryError>);

/// What a resource drop hands back: the representation of the resource when
/// its destructor has to run, nothing otherwise.
#[derive(Debug, Clone, Copy, PartialEq, Eq)]
pub struct ResourceDropRet(pub Option<u32>);

impl Default for ResourceDropRet {
    fn default() -> (r: Self)
        ensures
            r.0 is None,
    {
        ResourceDropRet(None)
    }
}

/// Entry into the `resource.new` builtin.
#[derive(Debug, Clone, Copy, PartialEq, Eq, Structural)]
pub struct ResourceNew32EntryEvent {
    pub caller_instance: u32,
    pub resource: u32,
    pub rep: u32,
}

/// Entry into the `resource.rep` builtin.
#[derive(Debug, Clone, Copy, PartialEq, Eq, Structural)]
pub struct ResourceRep32EntryEvent {
    pub caller_instance: u32,
    pub resource: u32,
    pub idx: u32,
}

/// Entry into the `resource.drop` builtin.
#[derive(Debug, Clone, Copy, PartialEq, Eq, Structural)]
pub struct ResourceDropEntryEvent {
    pub caller_instance: u32,
    pub resource: u32,
    pub idx: u32,
}

/// Entry into the builtin that transfers an owned resource between tables.
#[derive(Debug, Clone, Copy, PartialEq, Eq, Structural)]
pub struct ResourceTransferOwnEntryEvent {
    pub src_idx: u32,
    pub src_table: u32,
    pub dst_table: u32,
}

/// Entry into the builtin that transfers a borrowed resource between tables.
#[derive(Debug, Clone, Copy, PartialEq, Eq, Structural)]
pub struct ResourceTransferBorrowEntryEvent {
    pub src_idx: u32,
    pub src_table: u32,
    pub dst_table: u32,
}

/// Entry into the builtin that opens a call's resource scope.
#[derive(Debug, Clone, Copy, PartialEq, Eq, Structural)]
pub struct ResourceEnterCallEntryEvent {}

/// Entry into the builtin that closes a call's resource scope.
#[derive(Debug, Clone, Copy, PartialEq, Eq, Structural)]
pub struct ResourceExitCallEntryEvent {}

/// Entry into a component builtin.
#[derive(Debug, Clone, Copy, PartialEq, Eq, Structural)]
pub enum BuiltinEntryEvent {
    ResourceNew32(ResourceNew32EntryEvent),
    ResourceRep32(ResourceRep32EntryEvent),
    ResourceDrop(ResourceDropEntryEvent),
    ResourceTransferOwn(ResourceTransferOwnEntryEvent),
    ResourceTransferBorrow(ResourceTransferBorrowEntryEvent),
    ResourceEnterCall(ResourceEnterCallEntryEvent),
    ResourceExitCall(ResourceExitCallEntryEvent),
}

/// Return from the `resource.new` builtin.
#[derive(Debug, Clone)]
pub struct ResourceNew32ReturnEvent(pub ResultEvent<u32, BuiltinError>);

/// Return from the `resource.rep` builtin.
#[derive(Debug, Clone)]
pub struct ResourceRep32ReturnEvent(pub ResultEvent<u32, BuiltinError>);

/// Return from the `resource.drop` builtin.
#[derive(Debug, Clone)]
pub struct ResourceDropReturnEvent(pub ResultEvent<ResourceDropRet, BuiltinError>);

/// Return from the builtin that transfers an owned resource.
#[derive(Debug, Clone)]
pub struct ResourceTransferOwnReturnEvent(pub ResultEvent<u32, BuiltinError>);

/// Return from the builtin that transfers a borrowed resource.
#[derive(Debug, Clone)]
pub struct ResourceTransferBorrowReturnEvent(pub ResultEvent<u32, BuiltinError>);

/// Return from the builtin that closes a call's resource scope.
#[derive(Debug, Clone)]
pub struct ResourceExitCallReturnEvent(pub ResultEvent<(), BuiltinError>);

impl ResourceNew32ReturnEvent {
    /// The recorded result of the builtin.
    pub fn ret(self) -> (r: Result<u32, BuiltinError>)
        ensures
            r == self.0.outcome(),
    {
        self.0.ret()
    }
}

impl ResourceRep32ReturnEvent {
    /// The recorded result of the builtin.
    pub fn ret(self) -> (r: Result<u32, BuiltinError>)
        ensures
            r == self.0.outcome(),
    {
        self.0.ret()
    }
}

impl ResourceDropReturnEvent {
    /// The recorded result of the builtin.
    pub fn ret(self) -> (r: Result<ResourceDropRet, BuiltinError>)
        ensures
            r == self.0.outcome(),
    {
        self.0.ret()
    }
}

impl ResourceTransferOwnReturnEvent {
    /// The recorded result of the builtin.
    pub fn ret(self) -> (r: Result<u32, BuiltinError>)
        ensures
            r == self.0.outcome(),
    {
        self.0.ret()
    }
}

impl ResourceTransferBorrowReturnEvent {
    /// The recorded result of the builtin.
    pub fn ret(self) -> (r: Result<u32, BuiltinError>)
        ensures
            r == self.0.outcome(),
    {
        self.0.ret()
    }
}

impl ResourceExitCallReturnEvent {
    /// The recorded result of the builtin.
    pub fn ret(self) -> (r: Result<(), BuiltinError>)
        ensures
            r == self.0.outcome(),
    {
        self.0.ret()
    }
}

/// Return from a component builtin.
#[derive(Debug, Clone)]
pub enum BuiltinReturnEvent {
    ResourceNew32(ResourceNew32ReturnEvent),
    ResourceRep32(ResourceRep32ReturnEvent),
    ResourceDrop(ResourceDropReturnEvent),
    ResourceTransferOwn(ResourceTransferOwnReturnEvent),
    ResourceTransferBorrow(ResourceTransferBorrowReturnEvent),
    ResourceExitCall(ResourceExitCallReturnEvent),
}

impl PartialEq for InstantiationEvent {
    fn eq(&self, other: &Self) -> (r: bool) {
        self.component.same_as(&other.component) && self.instance == other.instance
    }
}

impl vstd::std_specs::cmp::PartialEqSpecImpl for InstantiationEvent {
    open spec fn obeys_eq_spec() -> bool {
        true
    }

    open spec fn eq_spec(&self, other: &Self) -> bool {
        self.component@ == other.component@ && self.instance == other.instance
    }
}

} // verus!
