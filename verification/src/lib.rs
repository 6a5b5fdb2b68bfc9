//! Record and replay of WebAssembly executions: the event vocabulary of a
//! trace, the buffers that write and read it, the validation rules applied
//! during replay, and the decisions of the replay driver.

pub mod checksum;
pub mod command;
pub mod embed;
pub mod error;
pub mod events;
pub mod flat;
pub mod index;
pub mod record;
pub mod replay;
pub mod replay_driver;
pub mod rr_event;
pub mod settings;
pub mod text;
pub mod validate;
