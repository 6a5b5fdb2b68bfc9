//! The `replay` command of the command line: its options, the checks it
//! makes before it replays, the environment it builds, and what it makes of
//! the outcome of the replay.

use vstd::prelude::*;
use crate::checksum::{spec_wasm_checksum, WasmChecksum};
use crate::replay_driver::ReplayEnvironment;
use crate::settings::{ReplaySettings, DEFAULT_DESERIALIZE_BUFFER_SIZE};

verus! {

/// Replay-specific options of the command line.
#[derive(Debug, Clone)]
pub struct ReplayOptions {
    /// The path of the recorded trace.
    pub trace: String,
    /// Whether to check the validation events of the trace.
    pub validate: bool,
    /// Size of the static buffer that deserialises variable-length values.
    pub deserialize_buffer_size: usize,
}

/// The replay settings that options ask for.
pub open spec fn options_settings(validate: bool, deserialize_buffer_size: usize) -> ReplaySettings {
    ReplaySettings { validate, deserialize_buffer_size }
}

impl ReplayOptions {
    /// The options for the trace at `trace`, with the command line's
    /// defaults: no validation and a buffer of 64 bytes.
    pub fn new(trace: String) -> (r: Self)
        ensures
            r.trace == trace,
            !r.validate,
            r.deserialize_buffer_size == DEFAULT_DESERIALIZE_BUFFER_SIZE,
    {
        ReplayOptions { trace, validate: false, deserialize_buffer_size: DEFAULT_DESERIALIZE_BUFFER_SIZE }
    }

    /// The replay settings these options ask for.
    pub fn settings(&self) -> (r: ReplaySettings)
        ensures
            r == options_settings(self.validate, self.deserialize_buffer_size),
    {
        ReplaySettings { validate: self.validate, deserialize_buffer_size: self.deserialize_buffer_size }
    }
}

/// Why the replay command refuses to run.
#[derive(Debug, Clone, Copy, PartialEq, Eq, Structural)]
pub enum ReplayCommandError {
    /// The coredump-on-trap path holds a `%` pattern.
    CoredumpPattern,
    /// `--allow-unknown-exports` was given for a component.
    UnknownExportsWithComponent,
}

impl ReplayCommandError {
    /// The message of the error.
    pub open spec fn message_text(&self) -> Seq<char> {
        match self {
            ReplayCommandError::CoredumpPattern => "the coredump-on-trap path does not support patterns yet."@,
            ReplayCommandError::UnknownExportsWithComponent => "--allow-unknown-exports not supported with components"@,
        }
    }

    /// The message of the error.
    pub fn message(&self) -> (r: String)
        ensures
            r@ == self.message_text(),
    {
        proof {
            reveal_strlit("the coredump-on-trap path does not support patterns yet.");
            reveal_strlit("--allow-unknown-exports not supported with components");
        }
        match self {
            ReplayCommandError::CoredumpPattern => String::from_str(
                "the coredump-on-trap path does not support patterns yet.",
            ),
            ReplayCommandError::UnknownExportsWithComponent => String::from_str(
                "--allow-unknown-exports not supported with components",
            ),
        }
    }
}

/// What the command replays: a core module or a component.
pub enum RunTarget<M, C> {
    /// A core Wasm module.
    Core(M),
    /// A component.
    Component(C),
}

/// Whether the characters `s` hold a `%`.
pub open spec fn has_percent(s: Seq<char>) -> bool {
    exists|i: int| 0 <= i < s.len() && s[i] == '%'
}

/// Whether the string `s` holds a `%`.
pub fn contains_percent(s: &str) -> (r: bool)
    ensures
        r == has_percent(s@),
{
    let n = s.unicode_len();
    let mut i: usize = 0;
    while i < n
        invariant
            n == s@.len(),
            i <= n,
            forall|j: int| 0 <= j < i ==> s@[j] != '%',
        decreases n - i,
    {
        if s.get_char(i) == '%' {
            return true;
        }
        i = i + 1;
    }
    false
}

/// Execute a deterministic, embedding-agnostic replay of a Wasm module given
/// its recorded trace: the options the replay reads.
#[derive(Debug, Clone)]
pub struct ReplayCommand {
    /// The replay-specific options.
    pub replay_opts: ReplayOptions,
    /// The path a coredump is written to on a trap, if any.
    pub coredump: Option<String>,
    /// Whether the module linker allows unknown exports, when given.
    pub allow_unknown_exports: Option<bool>,
    /// The fuel the store starts with, when fuel is configured.
    pub fuel: Option<u64>,
}

/// What a replay run came to.
#[derive(Debug, Clone, Copy, PartialEq, Eq, Structural)]
pub enum ReplayRunOutcome {
    /// The trace was replayed to its end.
    Completed,
    /// The replay failed; `trap` tells whether with a Wasm trap.
    Failed { trap: bool },
    /// The replay ran past its timeout (an interrupt trap).
    TimedOut,
}

/// What the command does at the end of a replay.
#[derive(Debug, Clone, Copy, PartialEq, Eq, Structural)]
pub enum ReplayFinish {
    /// Succeed.
    Success,
    /// Report the trap and exit as a process killed by `SIGABRT` would.
    AbortOnTrap,
    /// Return the error.
    Failure,
}

/// What the command does at the end of a replay that came to `outcome`: a
/// trap, a timeout among them, aborts the process; any other error is
/// returned.
pub fn finish_replay(outcome: ReplayRunOutcome) -> (r: ReplayFinish)
    ensures
        r == match outcome {
            ReplayRunOutcome::Completed => ReplayFinish::Success,
            ReplayRunOutcome::Failed { trap } => if trap {
                ReplayFinish::AbortOnTrap
            } else {
                ReplayFinish::Failure
            },
            ReplayRunOutcome::TimedOut => ReplayFinish::AbortOnTrap,
        },
{
    match outcome {
        ReplayRunOutcome::Completed => ReplayFinish::Success,
        ReplayRunOutcome::Failed { trap } => if trap {
            ReplayFinish::AbortOnTrap
        } else {
            ReplayFinish::Failure
        },
        ReplayRunOutcome::TimedOut => ReplayFinish::AbortOnTrap,
    }
}

impl ReplayCommand {
    /// The coredump-on-trap path may not hold a pattern yet: a `%` in it is
    /// refused before anything else is done.
    pub fn check_coredump(&self) -> (r: Result<(), ReplayCommandError>)
        ensures
            r == match self.coredump {
                Some(p) => if has_percent(p@) {
                    Err(ReplayCommandError::CoredumpPattern)
                } else {
                    Ok(())
                },
                None => Ok(()),
            },
    {
        match &self.coredump {
            Some(p) => {
                if contains_percent(p.as_str()) {
                    Err(ReplayCommandError::CoredumpPattern)
                } else {
                    Ok(())
                }
            },
            None => Ok(()),
        }
    }

    /// The replay environment for `target`, whose binary is `binary`: the
    /// settings of the options, and the module or component under the
    /// checksum of its binary.
    pub fn environment<M, C>(&self, target: RunTarget<M, C>, binary: &[u8]) -> (r:
        ReplayEnvironment<M, C>)
        ensures
            r.replay_settings() == options_settings(
                self.replay_opts.validate,
                self.replay_opts.deserialize_buffer_size,
            ),
            forall|k: Seq<u8>|
                #[trigger] r.module(k) == match target {
                    RunTarget::Core(m) => if k == spec_wasm_checksum(binary@) {
                        Some(m)
                    } else {
                        None
                    },
                    RunTarget::Component(_) => None,
                },
            forall|k: Seq<u8>|
                #[trigger] r.component(k) == match target {
                    RunTarget::Component(c) => if k == spec_wasm_checksum(binary@) {
                        Some(c)
                    } else {
                        None
                    },
                    RunTarget::Core(_) => None,
                },
    {
        let mut env = ReplayEnvironment::new(self.replay_opts.settings());
        let checksum = WasmChecksum::from_binary(binary);
        match target {
            RunTarget::Core(m) => env.add_module(checksum, m),
            RunTarget::Component(c) => env.add_component(checksum, c),
        }
        env
    }

    /// The component linker takes no `--allow-unknown-exports`.
    pub fn check_component_linker(&self) -> (r: Result<(), ReplayCommandError>)
        ensures
            r == if self.allow_unknown_exports is Some {
                Err(ReplayCommandError::UnknownExportsWithComponent)
            } else {
                Ok(())
            },
    {
        if self.allow_unknown_exports.is_some() {
            Err(ReplayCommandError::UnknownExportsWithComponent)
        } else {
            Ok(())
        }
    }

    /// How the linkers of a replay of `target` are set up: a component
    /// linker takes no `--allow-unknown-exports`; a module linker gets the
    /// setting, when one was given, to apply with `allow_unknown_exports`.
    pub fn linker_setup<M, C>(&self, target: &RunTarget<M, C>) -> (r: Result<
        Option<bool>,
        ReplayCommandError,
    >)
        ensures
            r == match target {
                RunTarget::Core(_) => Ok::<Option<bool>, ReplayCommandError>(
                    self.allow_unknown_exports,
                ),
                RunTarget::Component(_) => if self.allow_unknown_exports is Some {
                    Err(ReplayCommandError::UnknownExportsWithComponent)
                } else {
                    Ok(None)
                },
            },
    {
        match target {
            RunTarget::Core(_) => Ok(self.allow_unknown_exports),
            RunTarget::Component(_) => match self.check_component_linker() {
                Ok(()) => Ok(None),
                Err(e) => Err(e),
            },
        }
    }
}

} // verus!
