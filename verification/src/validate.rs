//! Validation of recorded events against what replay observes.

use vstd::prelude::*;
use crate::error::ReplayError;
use vstd::std_specs::cmp::PartialEqSpec;
use crate::events::common_events::{HostFuncEntryEvent, TraceSignatureEvent, WasmFuncReturnEvent};
use crate::events::component_events::{self, BuiltinEntryEvent};
use crate::events::core_events;
use crate::events::{both_failed_message, EventError, EventErrorKind, RRFuncArgVals};

verus! {

/// Types that can be validated on replay against an expected value.
pub trait Validate<T: ?Sized> {
    /// Whether the recorded event agrees with what replay observed.
    spec fn agrees_with(&self, expect: &T) -> bool;

    /// Whether `r` is what validating the recorded event against what replay
    /// observed gives: success when they agree, and otherwise the error that
    /// reports the disagreement.
    spec fn validated(&self, expect: &T, r: Result<(), ReplayError>) -> bool;

    /// Perform a validation of the event to ensure replay consistency.
    fn validate(&self, expect: &T) -> (r: Result<(), ReplayError>)
        ensures
            r is Ok <==> self.agrees_with(expect),
            self.validated(expect, r),
    ;
}

/// The result of a validation by equality: success when the recorded event
/// agrees with the observation, `FailedValidation` otherwise.
pub open spec fn equality_result(agrees: bool) -> Result<(), ReplayError> {
    if agrees {
        Ok(())
    } else {
        Err(ReplayError::FailedValidation)
    }
}

/// Validation by equality: `Ok` when the recorded value equals the expected
/// one, `FailedValidation` otherwise.
pub fn validate_eq<T: PartialEq>(recorded: &T, expect: &T) -> (r: Result<(), ReplayError>)
    ensures
        T::obeys_eq_spec() ==> r == equality_result(recorded.eq_spec(expect)),
        r is Err ==> r matches Err(ReplayError::FailedValidation),
{
    if recorded == expect {
        Ok(())
    } else {
        Err(ReplayError::FailedValidation)
    }
}

impl Validate<HostFuncEntryEvent> for HostFuncEntryEvent {
    open spec fn agrees_with(&self, expect: &HostFuncEntryEvent) -> bool {
        self.eq_spec(expect)
    }

    open spec fn validated(&self, expect: &HostFuncEntryEvent, r: Result<(), ReplayError>) -> bool {
        r == equality_result(self.agrees_with(expect))
    }

    fn validate(&self, expect: &HostFuncEntryEvent) -> (r: Result<(), ReplayError>)
        ensures
            r is Err ==> r == Err::<(), ReplayError>(ReplayError::FailedValidation),
    {
        validate_eq(self, expect)
    }
}

impl Validate<component_events::InstantiationEvent> for component_events::InstantiationEvent {
    open spec fn agrees_with(&self, expect: &component_events::InstantiationEvent) -> bool {
        self.eq_spec(expect)
    }

    open spec fn validated(&self, expect: &component_events::InstantiationEvent, r: Result<(), ReplayError>) -> bool {
        r == equality_result(self.agrees_with(expect))
    }

    fn validate(&self, expect: &component_events::InstantiationEvent) -> (r: Result<(), ReplayError>)
        ensures
            r is Err ==> r == Err::<(), ReplayError>(ReplayError::FailedValidation),
    {
        validate_eq(self, expect)
    }
}

impl Validate<core_events::InstantiationEvent> for core_events::InstantiationEvent {
    open spec fn agrees_with(&self, expect: &core_events::InstantiationEvent) -> bool {
        self.eq_spec(expect)
    }

    open spec fn validated(&self, expect: &core_events::InstantiationEvent, r: Result<(), ReplayError>) -> bool {
        r == equality_result(self.agrees_with(expect))
    }

    fn validate(&self, expect: &core_events::InstantiationEvent) -> (r: Result<(), ReplayError>)
        ensures
            r is Err ==> r == Err::<(), ReplayError>(ReplayError::FailedValidation),
    {
        validate_eq(self, expect)
    }
}

impl Validate<BuiltinEntryEvent> for BuiltinEntryEvent {
    open spec fn agrees_with(&self, expect: &BuiltinEntryEvent) -> bool {
        *self == *expect
    }

    open spec fn validated(&self, expect: &BuiltinEntryEvent, r: Result<(), ReplayError>) -> bool {
        r == equality_result(self.agrees_with(expect))
    }

    fn validate(&self, expect: &BuiltinEntryEvent) -> (r: Result<(), ReplayError>)
        ensures
            r is Err ==> r == Err::<(), ReplayError>(ReplayError::FailedValidation),
    {
        if *self == *expect {
            Ok(())
        } else {
            Err(ReplayError::FailedValidation)
        }
    }
}

impl Validate<component_events::WasmFuncBeginEvent> for component_events::WasmFuncBeginEvent {
    open spec fn agrees_with(&self, expect: &component_events::WasmFuncBeginEvent) -> bool {
        *self == *expect
    }

    open spec fn validated(&self, expect: &component_events::WasmFuncBeginEvent, r: Result<(), ReplayError>) -> bool {
        r == equality_result(self.agrees_with(expect))
    }

    fn validate(&self, expect: &component_events::WasmFuncBeginEvent) -> (r: Result<(), ReplayError>) {
        if *self == *expect {
            Ok(())
        } else {
            Err(ReplayError::FailedValidation)
        }
    }
}

impl Validate<component_events::RRComponentInstanceId> for component_events::RRComponentInstanceId {
    open spec fn agrees_with(&self, expect: &component_events::RRComponentInstanceId) -> bool {
        *self == *expect
    }

    open spec fn validated(&self, expect: &component_events::RRComponentInstanceId, r: Result<(), ReplayError>) -> bool {
        r == equality_result(self.agrees_with(expect))
    }

    fn validate(&self, expect: &component_events::RRComponentInstanceId) -> (r: Result<(), ReplayError>) {
        if *self == *expect {
            Ok(())
        } else {
            Err(ReplayError::FailedValidation)
        }
    }
}

impl Validate<core_events::RRModuleInstanceId> for core_events::RRModuleInstanceId {
    open spec fn agrees_with(&self, expect: &core_events::RRModuleInstanceId) -> bool {
        *self == *expect
    }

    open spec fn validated(&self, expect: &core_events::RRModuleInstanceId, r: Result<(), ReplayError>) -> bool {
        r == equality_result(self.agrees_with(expect))
    }

    fn validate(&self, expect: &core_events::RRModuleInstanceId) -> (r: Result<(), ReplayError>) {
        if *self == *expect {
            Ok(())
        } else {
            Err(ReplayError::FailedValidation)
        }
    }
}

impl Validate<component_events::ResourceNew32EntryEvent> for component_events::ResourceNew32EntryEvent {
    open spec fn agrees_with(&self, expect: &component_events::ResourceNew32EntryEvent) -> bool {
        *self == *expect
    }

    open spec fn validated(&self, expect: &component_events::ResourceNew32EntryEvent, r: Result<(), ReplayError>) -> bool {
        r == equality_result(self.agrees_with(expect))
    }

    fn validate(&self, expect: &component_events::ResourceNew32EntryEvent) -> (r: Result<(), ReplayError>) {
        if *self == *expect {
            Ok(())
        } else {
            Err(ReplayError::FailedValidation)
        }
    }
}

impl Validate<component_events::ResourceRep32EntryEvent> for component_events::ResourceRep32EntryEvent {
    open spec fn agrees_with(&self, expect: &component_events::ResourceRep32EntryEvent) -> bool {
        *self == *expect
    }

    open spec fn validated(&self, expect: &component_events::ResourceRep32EntryEvent, r: Result<(), ReplayError>) -> bool {
        r == equality_result(self.agrees_with(expect))
    }

    fn validate(&self, expect: &component_events::ResourceRep32EntryEvent) -> (r: Result<(), ReplayError>) {
        if *self == *expect {
            Ok(())
        } else {
            Err(ReplayError::FailedValidation)
        }
    }
}

impl Validate<component_events::ResourceDropEntryEvent> for component_events::ResourceDropEntryEvent {
    open spec fn agrees_with(&self, expect: &component_events::ResourceDropEntryEvent) -> bool {
        *self == *expect
    }

    open spec fn validated(&self, expect: &component_events::ResourceDropEntryEvent, r: Result<(), ReplayError>) -> bool {
        r == equality_result(self.agrees_with(expect))
    }

    fn validate(&self, expect: &component_events::ResourceDropEntryEvent) -> (r: Result<(), ReplayError>) {
        if *self == *expect {
            Ok(())
        } else {
            Err(ReplayError::FailedValidation)
        }
    }
}

impl Validate<component_events::ResourceTransferOwnEntryEvent> for component_events::ResourceTransferOwnEntryEvent {
    open spec fn agrees_with(&self, expect: &component_events::ResourceTransferOwnEntryEvent) -> bool {
        *self == *expect
    }

    open spec fn validated(&self, expect: &component_events::ResourceTransferOwnEntryEvent, r: Result<(), ReplayError>) -> bool {
        r == equality_result(self.agrees_with(expect))
    }

    fn validate(&self, expect: &component_events::ResourceTransferOwnEntryEvent) -> (r: Result<(), ReplayError>) {
        if *self == *expect {
            Ok(())
        } else {
            Err(ReplayError::FailedValidation)
        }
    }
}

impl Validate<component_events::ResourceTransferBorrowEntryEvent> for component_events::ResourceTransferBorrowEntryEvent {
    open spec fn agrees_with(&self, expect: &component_events::ResourceTransferBorrowEntryEvent) -> bool {
        *self == *expect
    }

    open spec fn validated(&self, expect: &component_events::ResourceTransferBorrowEntryEvent, r: Result<(), ReplayError>) -> bool {
        r == equality_result(self.agrees_with(expect))
    }

    fn validate(&self, expect: &component_events::ResourceTransferBorrowEntryEvent) -> (r: Result<(), ReplayError>) {
        if *self == *expect {
            Ok(())
        } else {
            Err(ReplayError::FailedValidation)
        }
    }
}

impl Validate<component_events::ResourceEnterCallEntryEvent> for component_events::ResourceEnterCallEntryEvent {
    open spec fn agrees_with(&self, expect: &component_events::ResourceEnterCallEntryEvent) -> bool {
        *self == *expect
    }

    open spec fn validated(&self, expect: &component_events::ResourceEnterCallEntryEvent, r: Result<(), ReplayError>) -> bool {
        r == equality_result(self.agrees_with(expect))
    }

    fn validate(&self, expect: &component_events::ResourceEnterCallEntryEvent) -> (r: Result<(), ReplayError>) {
        if *self == *expect {
            Ok(())
        } else {
            Err(ReplayError::FailedValidation)
        }
    }
}

impl Validate<component_events::ResourceExitCallEntryEvent> for component_events::ResourceExitCallEntryEvent {
    open spec fn agrees_with(&self, expect: &component_events::ResourceExitCallEntryEvent) -> bool {
        *self == *expect
    }

    open spec fn validated(&self, expect: &component_events::ResourceExitCallEntryEvent, r: Result<(), ReplayError>) -> bool {
        r == equality_result(self.agrees_with(expect))
    }

    fn validate(&self, expect: &component_events::ResourceExitCallEntryEvent) -> (r: Result<(), ReplayError>) {
        if *self == *expect {
            Ok(())
        } else {
            Err(ReplayError::FailedValidation)
        }
    }
}

impl Validate<RRFuncArgVals> for RRFuncArgVals {
    open spec fn agrees_with(&self, expect: &RRFuncArgVals) -> bool {
        self.eq_spec(expect)
    }

    open spec fn validated(&self, expect: &RRFuncArgVals, r: Result<(), ReplayError>) -> bool {
        r == equality_result(self.agrees_with(expect))
    }

    fn validate(&self, expect: &RRFuncArgVals) -> (r: Result<(), ReplayError>) {
        validate_eq(self, expect)
    }
}

impl Validate<Result<RRFuncArgVals, anyhow::Error>> for WasmFuncReturnEvent {
    open spec fn agrees_with(&self, expect: &Result<RRFuncArgVals, anyhow::Error>) -> bool {
        self.0.agrees_with_result(expect)
    }

    open spec fn validated(&self, expect: &Result<RRFuncArgVals, anyhow::Error>, r: Result<
        (),
        ReplayError,
    >) -> bool {
        match (self.0.outcome(), expect) {
            (Err(e), Err(_)) => r matches Err(ReplayError::EventError(rec)) && rec.kind
                == EventErrorKind::WasmFuncReturn && exists|m: Seq<char>|
                rec.message@ == both_failed_message(m, e.message()),
            _ => r == equality_result(self.agrees_with(expect)),
        }
    }

    fn validate(&self, expect: &Result<RRFuncArgVals, anyhow::Error>) -> (r: Result<(), ReplayError>) {
        self.0.validate_result(expect)
    }
}

impl Validate<str> for TraceSignatureEvent {
    open spec fn agrees_with(&self, expect: &str) -> bool {
        self.checksum@ == expect@
    }

    open spec fn validated(&self, expect: &str, r: Result<(), ReplayError>) -> bool {
        r == equality_result(self.agrees_with(expect))
    }

    fn validate(&self, expect: &str) -> (r: Result<(), ReplayError>)
        ensures
            r is Err ==> r == Err::<(), ReplayError>(ReplayError::FailedValidation),
    {
        let expected = String::from_str(expect);
        if self.checksum == expected {
            Ok(())
        } else {
            Err(ReplayError::FailedValidation)
        }
    }
}

/// Replay validation accepts what was recorded: an event validates against
/// an equal observation, a recorded successful return against the same
/// successful result, and a trace signature against the format version it
/// names.
pub proof fn lemma_recorded_events_validate(
    h: HostFuncEntryEvent,
    c: component_events::InstantiationEvent,
    m: core_events::InstantiationEvent,
    b: BuiltinEntryEvent,
    w: WasmFuncReturnEvent,
    ret: Result<RRFuncArgVals, anyhow::Error>,
    s: TraceSignatureEvent,
    version: &str,
)
    requires
        w.0.outcome() is Ok,
        ret matches Ok(v) && v.bytes@ == w.0.outcome()->Ok_0.bytes@ && v.sizes@ == w.0.outcome()->Ok_0.sizes@,
        version@ == s.checksum@,
    ensures
        h.agrees_with(&h),
        c.agrees_with(&c),
        m.agrees_with(&m),
        b.agrees_with(&b),
        w.agrees_with(&ret),
        s.agrees_with(version),
{
}

/// Recorded call values and recorded returns agree with what replay observed
/// exactly when their bytes and their sizes are both equal: a value that
/// differs in its bytes alone fails validation.
pub proof fn lemma_values_validate_by_contents(
    a: RRFuncArgVals,
    b: RRFuncArgVals,
    h: HostFuncEntryEvent,
    g: HostFuncEntryEvent,
    w: WasmFuncReturnEvent,
    ret: Result<RRFuncArgVals, anyhow::Error>,
)
    ensures
        a.agrees_with(&b) <==> (a.bytes@ == b.bytes@ && a.sizes@ == b.sizes@),
        a.eq_spec(&b) <==> (a.bytes@ == b.bytes@ && a.sizes@ == b.sizes@),
        h.agrees_with(&g) <==> (h.args.bytes@ == g.args.bytes@ && h.args.sizes@ == g.args.sizes@),
        w.0.outcome() is Ok && ret is Ok ==> (w.agrees_with(&ret) <==> (
        w.0.outcome()->Ok_0.bytes@ == ret->Ok_0.bytes@ && w.0.outcome()->Ok_0.sizes@
            == ret->Ok_0.sizes@)),
        (w.0.outcome() is Ok) != (ret is Ok) ==> !w.agrees_with(&ret),
{
}

/// A recorded instantiation agrees with an observed one exactly when both
/// instantiate the binary with the same checksum under the same instance
/// identifier.
pub proof fn lemma_instantiations_validate_by_contents(
    c: component_events::InstantiationEvent,
    d: component_events::InstantiationEvent,
    m: core_events::InstantiationEvent,
    n: core_events::InstantiationEvent,
)
    ensures
        c.agrees_with(&d) <==> (c.component@ == d.component@ && c.instance == d.instance),
        c.eq_spec(&d) <==> (c.component@ == d.component@ && c.instance == d.instance),
        m.agrees_with(&n) <==> (m.module@ == n.module@ && m.instance == n.instance),
        m.eq_spec(&n) <==> (m.module@ == n.module@ && m.instance == n.instance),
{
}

/// A recorded builtin entry agrees with an observed one exactly when they
/// are the same builtin with the same arguments.
pub proof fn lemma_builtin_entries_validate_by_contents(b: BuiltinEntryEvent, c: BuiltinEntryEvent)
    ensures
        b.agrees_with(&c) <==> b == c,
        b.agrees_with(&c) <==> match (b, c) {
            (BuiltinEntryEvent::ResourceNew32(x), BuiltinEntryEvent::ResourceNew32(y)) => x.caller_instance
                == y.caller_instance && x.resource == y.resource && x.rep == y.rep,
            (BuiltinEntryEvent::ResourceRep32(x), BuiltinEntryEvent::ResourceRep32(y)) => x.caller_instance
                == y.caller_instance && x.resource == y.resource && x.idx == y.idx,
            (BuiltinEntryEvent::ResourceDrop(x), BuiltinEntryEvent::ResourceDrop(y)) => x.caller_instance
                == y.caller_instance && x.resource == y.resource && x.idx == y.idx,
            (
                BuiltinEntryEvent::ResourceTransferOwn(x),
                BuiltinEntryEvent::ResourceTransferOwn(y),
            ) => x.src_idx == y.src_idx && x.src_table == y.src_table && x.dst_table == y.dst_table,
            (
                BuiltinEntryEvent::ResourceTransferBorrow(x),
                BuiltinEntryEvent::ResourceTransferBorrow(y),
            ) => x.src_idx == y.src_idx && x.src_table == y.src_table && x.dst_table == y.dst_table,
            (BuiltinEntryEvent::ResourceEnterCall(_), BuiltinEntryEvent::ResourceEnterCall(_)) => true,
            (BuiltinEntryEvent::ResourceExitCall(_), BuiltinEntryEvent::ResourceExitCall(_)) => true,
            _ => false,
        },
{
}

} // verus!
