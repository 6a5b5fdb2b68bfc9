use vstd::prelude::*;

verus! {

/// Default size of the in-memory window of events before they are flushed.
pub const DEFAULT_EVENT_WINDOW_SIZE: usize = 16;

/// Default size of the static buffer used to deserialise variable-length values.
pub const DEFAULT_DESERIALIZE_BUFFER_SIZE: usize = 64;

/// Settings for execution recording.
#[derive(Debug, Clone, Copy, PartialEq, Eq)]
pub struct RecordSettings {
    /// Flag to include additional signatures for replay validation.
    pub add_validation: bool,
    /// Maximum window size of internal event buffer.
    pub event_window_size: usize,
}

impl Default for RecordSettings {
    fn default() -> (s: Self)
        ensures
            s.add_validation == false,
            s.event_window_size == DEFAULT_EVENT_WINDOW_SIZE,
    {
        RecordSettings { add_validation: false, event_window_size: DEFAULT_EVENT_WINDOW_SIZE }
    }
}

/// Settings for execution replay.
#[derive(Debug, Clone, Copy, PartialEq, Eq)]
pub struct ReplaySettings {
    /// Flag to check the validation events of a trace during replay.
    pub validate: bool,
    /// Static buffer size for deserialization of variable-length types (like `String`).
    pub deserialize_buffer_size: usize,
}

impl Default for ReplaySettings {
    fn default() -> (s: Self)
        ensures
            s.validate == false,
            s.deserialize_buffer_size == DEFAULT_DESERIALIZE_BUFFER_SIZE,
    {
        ReplaySettings { validate: false, deserialize_buffer_size: DEFAULT_DESERIALIZE_BUFFER_SIZE }
    }
}

} // verus!
