//! The errors of a replay run, and the messages they display.

use vstd::prelude::*;
use crate::checksum::WasmChecksum;
use crate::events::component_events::RRComponentInstanceId;
use crate::events::core_events::RRModuleInstanceId;
use crate::events::{EventError, EventErrorRecord};
use crate::index::FuncIndex;
use crate::text::{debug_str, decimal, hex_bytes, lemma_hex_bytes_alphanumeric, push_decimal};

verus! {

/// Error type signalling failures during a replay run.
#[derive(Debug, Clone)]
pub enum ReplayError {
    EmptyBuffer,
    FailedValidation,
    IncorrectEventVariant,
    InvalidEventPosition,
    /// Reading or decoding the trace failed; holds the reader's message.
    FailedRead(String),
    EventError(EventErrorRecord),
    MissingComponent(WasmChecksum),
    MissingModule(WasmChecksum),
    MissingComponentInstance(RRComponentInstanceId),
    MissingModuleInstance(RRModuleInstanceId),
    InvalidCoreFuncIndex(FuncIndex),
}

/// The hint added to the message of a failed read.
pub open spec fn failed_read_note() -> Seq<char> {
    "Note: Ensure sufficient `deserialization-buffer-size` in replay settings if you included `validation-metadata` during recording"@
}

impl ReplayError {
    /// The error carrying the event error `e`.
    pub fn from_event_error<E: EventError>(e: E) -> (r: Self)
        ensures
            r matches ReplayError::EventError(rec) && rec.kind == E::error_kind()
                && rec.message@ == e.message(),
    {
        ReplayError::EventError(EventErrorRecord::from_error(e))
    }

    /// The message the error displays.
    pub open spec fn message_text(&self) -> Seq<char> {
        match self {
            ReplayError::EmptyBuffer => "replay buffer is empty"@,
            ReplayError::FailedValidation => "failed validation check during replay; see wasmtime log for error"@,
            ReplayError::IncorrectEventVariant => "event type mismatch during replay"@,
            ReplayError::EventError(e) => e.debug_text(),
            ReplayError::FailedRead(e) => e@ + failed_read_note(),
            ReplayError::InvalidEventPosition => "event occured at an invalid position in the trace"@,
            ReplayError::MissingComponent(checksum) => "missing component binary with checksum 0x"@
                + hex_bytes(checksum@) + " during replay"@,
            ReplayError::MissingModule(checksum) => "missing module binary with checksum \""@
                + hex_bytes(checksum@) + "\" during replay"@,
            ReplayError::MissingComponentInstance(id) => "missing component instance ID RRComponentInstanceId("@
                + decimal(id.0 as nat) + ") during replay"@,
            ReplayError::MissingModuleInstance(id) => "missing module instance ID RRModuleInstanceId("@
                + decimal(id.0 as nat) + ") during replay"@,
            ReplayError::InvalidCoreFuncIndex(index) => "replay core func (Function(FuncIndex("@
                + decimal(index.0 as nat) + "))) during replay is invalid"@,
        }
    }

    /// Renders the error's message, as its `Display` prints it.
    pub fn message(&self) -> (r: String)
        ensures
            r@ == self.message_text(),
    {
        match self {
            ReplayError::EmptyBuffer => {
                proof { reveal_strlit("replay buffer is empty"); }
                String::from_str("replay buffer is empty")
            },
            ReplayError::FailedValidation => {
                proof {
                    reveal_strlit("failed validation check during replay; see wasmtime log for error");
                }
                String::from_str("failed validation check during replay; see wasmtime log for error")
            },
            ReplayError::IncorrectEventVariant => {
                proof { reveal_strlit("event type mismatch during replay"); }
                String::from_str("event type mismatch during replay")
            },
            ReplayError::EventError(e) => e.debug_string(),
            ReplayError::FailedRead(e) => {
                let mut out = e.clone();
                out.append(
                    "Note: Ensure sufficient `deserialization-buffer-size` in replay settings if you included `validation-metadata` during recording",
                );
                proof {
                    reveal_strlit(
                        "Note: Ensure sufficient `deserialization-buffer-size` in replay settings if you included `validation-metadata` during recording",
                    );
                }
                out
            },
            ReplayError::InvalidEventPosition => {
                proof { reveal_strlit("event occured at an invalid position in the trace"); }
                String::from_str("event occured at an invalid position in the trace")
            },
            ReplayError::MissingComponent(checksum) => {
                let mut out = String::from_str("missing component binary with checksum 0x");
                let hex = checksum.to_hex();
                out.append(hex.as_str());
                out.append(" during replay");
                proof {
                    reveal_strlit("missing component binary with checksum 0x");
                    reveal_strlit(" during replay");
                }
                out
            },
            ReplayError::MissingModule(checksum) => {
                let mut out = String::from_str("missing module binary with checksum ");
                let hex = checksum.to_hex();
                proof {
                    lemma_hex_bytes_alphanumeric(checksum@);
                }
                let quoted = debug_str(hex.as_str());
                out.append(quoted.as_str());
                out.append(" during replay");
                proof {
                    reveal_strlit("missing module binary with checksum ");
                    reveal_strlit(" during replay");
                    reveal_strlit("missing module binary with checksum \"");
                    reveal_strlit("\" during replay");
                    assert(out@ =~= self.message_text());
                }
                out
            },
            ReplayError::MissingComponentInstance(id) => {
                let mut out = String::from_str("missing component instance ID RRComponentInstanceId(");
                push_decimal(&mut out, id.0 as u64);
                out.append(") during replay");
                proof {
                    reveal_strlit("missing component instance ID RRComponentInstanceId(");
                    reveal_strlit(") during replay");
                }
                out
            },
            ReplayError::MissingModuleInstance(id) => {
                let mut out = String::from_str("missing module instance ID RRModuleInstanceId(");
                push_decimal(&mut out, id.0 as u64);
                out.append(") during replay");
                proof {
                    reveal_strlit("missing module instance ID RRModuleInstanceId(");
                    reveal_strlit(") during replay");
                }
                out
            },
            ReplayError::InvalidCoreFuncIndex(index) => {
                let mut out = String::from_str("replay core func (Function(FuncIndex(");
                push_decimal(&mut out, index.0 as u64);
                out.append("))) during replay is invalid");
                proof {
                    reveal_strlit("replay core func (Function(FuncIndex(");
                    reveal_strlit("))) during replay is invalid");
                }
                out
            },
        }
    }
}

} // verus!
