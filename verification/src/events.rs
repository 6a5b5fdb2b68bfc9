//! The pieces events are made of: flat argument values, errors carried in the
//! trace, and recorded results.

pub mod common_events;
pub mod component_events;
pub mod core_events;

use vstd::prelude::*;
use crate::error::ReplayError;
use vstd::std_specs::cmp::PartialEqSpec;
use crate::text::{
    ascii_alphanumeric, debug_str, decimal, hex_bytes, lemma_hex_bytes_alphanumeric, push_decimal,
    push_hex_bytes_reversed, spec_debug_str,
};

verus! {

/// Declares `anyhow::Error` to Verus as an opaque type: recorded results are
/// taken as `anyhow` results, and nothing inside an error is read but its
/// message.
#[verifier::external_type_specification]
#[verifier::external_body]
pub struct ExAnyhowError(anyhow::Error);

/// Renders `e` with `anyhow::Error`'s `Display` (`to_string`).
///
/// Nothing is stated of the text: an `anyhow::Error` is opaque here, so its
/// message cannot be named as a function of plain values.
#[verifier::external_body]
pub(crate) fn anyhow_message(e: &anyhow::Error) -> String {
    e.to_string()
}

// ---------------------------------------------------------------------------
// Flat argument values
// ---------------------------------------------------------------------------

/// The sum of the sizes in `sizes`.
pub open spec fn sizes_total(sizes: Seq<u8>) -> nat
    decreases sizes.len(),
{
    if sizes.len() == 0 {
        0
    } else {
        sizes_total(sizes.drop_last()) + sizes.last() as nat
    }
}

/// Summing a longer prefix of the sizes never gives less.
pub proof fn lemma_sizes_total_prefix(sizes: Seq<u8>, i: int, j: int)
    requires
        0 <= i <= j <= sizes.len(),
    ensures
        sizes_total(sizes.take(i)) <= sizes_total(sizes.take(j)),
    decreases j - i,
{
    if i < j {
        lemma_sizes_total_prefix(sizes, i, j - 1);
        assert(sizes.take(j).drop_last() =~= sizes.take(j - 1));
    }
}

/// The bytes of the `i`-th value of a flat byte sequence with the given sizes.
pub open spec fn segment(bytes: Seq<u8>, sizes: Seq<u8>, i: int) -> Seq<u8> {
    bytes.subrange(sizes_total(sizes.take(i)) as int, sizes_total(sizes.take(i)) + sizes[i])
}

/// Representation of flat arguments for function entry/return.
#[derive(Debug, Clone)]
pub struct RRFuncArgVals {
    /// Flat data vector of bytes.
    pub bytes: Vec<u8>,
    /// Descriptor vector of sizes of each flat type.
    ///
    /// The length of this vector equals the number of flat types, and the sum
    /// of this vector equals the length of `bytes`.
    pub sizes: Vec<u8>,
}

impl RRFuncArgVals {
    /// The sizes add up to the number of bytes.
    pub open spec fn well_formed(&self) -> bool {
        sizes_total(self.sizes@) == self.bytes@.len()
    }

    /// The offset in `bytes` at which the `i`-th value starts.
    pub open spec fn offset(&self, i: int) -> nat {
        sizes_total(self.sizes@.take(i))
    }

    /// The bytes of the `i`-th value.
    pub open spec fn value_bytes(&self, i: int) -> Seq<u8> {
        segment(self.bytes@, self.sizes@, i)
    }

    /// The text of the `i`-th entry of the `Debug` rendering: the size, then
    /// the value's bytes as a hexadecimal number (last byte first).
    pub open spec fn entry_text(&self, i: int) -> Seq<char> {
        "("@ + decimal(self.sizes@[i] as nat) + ", \"0x"@ + hex_bytes(
            self.value_bytes(i).reverse(),
        ) + "\")"@
    }

    /// The first `n` entries, separated by `", "`.
    pub open spec fn entries_text(&self, n: nat) -> Seq<char>
        decreases n,
    {
        if n == 0 {
            seq![]
        } else if n == 1 {
            self.entry_text(0)
        } else {
            self.entries_text((n - 1) as nat) + ", "@ + self.entry_text(n - 1)
        }
    }

    /// The `Debug` rendering of the values.
    pub open spec fn debug_text(&self) -> Seq<char> {
        "RRFuncArgVals ["@ + self.entries_text(self.sizes@.len()) + "]"@
    }

    /// Renders the values as `Debug` does: `RRFuncArgVals [(size, "0x…"), …]`.
    pub fn debug_string(&self) -> (r: String)
        requires
            self.well_formed(),
        ensures
            r@ == self.debug_text(),
    {
        let mut out = String::from_str("RRFuncArgVals [");
        let n = self.sizes.len();
        let blen = self.bytes.len();
        let mut pos: usize = 0;
        let mut i: usize = 0;
        proof {
            reveal_strlit("RRFuncArgVals [");
        }
        while i < n
            invariant
                n == self.sizes@.len(),
                blen == self.bytes@.len(),
                self.well_formed(),
                i <= n,
                pos == self.offset(i as int),
                out@ == "RRFuncArgVals ["@ + self.entries_text(i as nat),
            decreases n - i,
        {
            proof {
                lemma_sizes_total_prefix(self.sizes@, i + 1, n as int);
                assert(self.sizes@.take(n as int) =~= self.sizes@);
                assert(self.sizes@.take(i + 1).drop_last() =~= self.sizes@.take(i as int));
                assert(self.sizes@.take(i + 1).last() == self.sizes@[i as int]);
                assert(self.offset(i + 1) == self.offset(i as int) + self.sizes@[i as int]);
                assert(sizes_total(self.sizes@.take(n as int)) == self.bytes@.len());
                assert(self.offset(i + 1) <= self.bytes@.len());
            }
            let size = self.sizes[i];
            let end = pos + size as usize;
            let ghost before = out@;
            if i > 0 {
                out.append(", ");
                proof { reveal_strlit(", "); }
            }
            out.append("(");
            push_decimal(&mut out, size as u64);
            out.append(", ");
            let mut hex = String::from_str("0x");
            push_hex_bytes_reversed(&mut hex, self.bytes.as_slice(), pos, end);
            proof {
                reveal_strlit("0x");
                lemma_hex_bytes_alphanumeric(self.bytes@.subrange(pos as int, end as int).reverse());
                assert(ascii_alphanumeric(hex@));
            }
            let quoted = debug_str(hex.as_str());
            out.append(quoted.as_str());
            out.append(")");
            proof {
                reveal_strlit("(");
                reveal_strlit(", ");
                reveal_strlit(")");
                reveal_strlit(", \"0x");
                reveal_strlit("\")");
                assert(self.value_bytes(i as int) =~= self.bytes@.subrange(pos as int, end as int));
                if i > 0 {
                    assert(out@ =~= before + ", "@ + self.entry_text(i as int));
                } else {
                    assert(out@ =~= before + self.entry_text(i as int));
                }
            }
            pos = end;
            i = i + 1;
        }
        out.append("]");
        proof {
            reveal_strlit("]");
        }
        out
    }
}

/// Whether two byte vectors hold the same bytes.
pub fn bytes_equal(a: &Vec<u8>, b: &Vec<u8>) -> (r: bool)
    ensures
        r == (a@ == b@),
{
    if a.len() != b.len() {
        return false;
    }
    let n = a.len();
    let mut i: usize = 0;
    while i < n
        invariant
            n == a@.len(),
            n == b@.len(),
            i <= n,
            forall|j: int| 0 <= j < i ==> a@[j] == b@[j],
        decreases n - i,
    {
        if a[i] != b[i] {
            return false;
        }
        i = i + 1;
    }
    assert(a@ =~= b@);
    true
}

impl PartialEq for RRFuncArgVals {
    fn eq(&self, other: &Self) -> (r: bool) {
        bytes_equal(&self.bytes, &other.bytes) && bytes_equal(&self.sizes, &other.sizes)
    }
}

impl vstd::std_specs::cmp::PartialEqSpecImpl for RRFuncArgVals {
    open spec fn obeys_eq_spec() -> bool {
        true
    }

    open spec fn eq_spec(&self, other: &Self) -> bool {
        self.bytes@ == other.bytes@ && self.sizes@ == other.sizes@
    }
}

// ---------------------------------------------------------------------------
// Errors carried in the trace
// ---------------------------------------------------------------------------

/// Which of the trace's error types an error is.
#[derive(Debug, Clone, Copy, PartialEq, Eq)]
pub enum EventErrorKind {
    WasmFuncReturn,
    Realloc,
    LowerFlat,
    LowerMemory,
    Builtin,
}

impl EventErrorKind {
    /// The name of the error type.
    pub open spec fn name(self) -> Seq<char> {
        match self {
            EventErrorKind::WasmFuncReturn => "WasmFuncReturnError"@,
            EventErrorKind::Realloc => "ReallocError"@,
            EventErrorKind::LowerFlat => "LowerFlatError"@,
            EventErrorKind::LowerMemory => "LowerMemoryError"@,
            EventErrorKind::Builtin => "BuiltinError"@,
        }
    }

    /// Appends the name of the error type to `out`.
    pub fn push_name(&self, out: &mut String)
        ensures
            final(out)@ == old(out)@ + self.name(),
    {
        match self {
            EventErrorKind::WasmFuncReturn => {
                out.append("WasmFuncReturnError");
                proof { reveal_strlit("WasmFuncReturnError"); }
            },
            EventErrorKind::Realloc => {
                out.append("ReallocError");
                proof { reveal_strlit("ReallocError"); }
            },
            EventErrorKind::LowerFlat => {
                out.append("LowerFlatError");
                proof { reveal_strlit("LowerFlatError"); }
            },
            EventErrorKind::LowerMemory => {
                out.append("LowerMemoryError");
                proof { reveal_strlit("LowerMemoryError"); }
            },
            EventErrorKind::Builtin => {
                out.append("BuiltinError");
                proof { reveal_strlit("BuiltinError"); }
            },
        }
    }
}

/// A serde compatible representation of errors produced during execution of
/// certain events: the display message of an error during recording, so that
/// it can be re-thrown during replay.
pub trait EventError: Sized {
    /// The message this error carries.
    spec fn message(&self) -> Seq<char>;

    /// Which error type this is.
    spec fn error_kind() -> EventErrorKind;

    /// An error with the message `t`.
    fn new(t: String) -> (r: Self)
        ensures
            r.message() == t@,
    ;

    /// The message of this error.
    fn get(&self) -> (r: &String)
        ensures
            r@ == self.message(),
    ;

    /// Which error type this is.
    fn kind() -> (k: EventErrorKind)
        ensures
            k == Self::error_kind(),
    ;
}

/// An event error taken out of its type: which type it was, and its message.
#[derive(Debug, Clone)]
pub struct EventErrorRecord {
    pub kind: EventErrorKind,
    pub message: String,
}

impl EventErrorRecord {
    /// The record of the event error `e`.
    pub fn from_error<E: EventError>(e: E) -> (r: Self)
        ensures
            r.kind == E::error_kind(),
            r.message@ == e.message(),
    {
        EventErrorRecord { kind: E::kind(), message: e.get().clone() }
    }

    /// The `Debug` rendering of the error: its type name, then its message
    /// quoted, in parentheses.
    pub open spec fn debug_text(&self) -> Seq<char> {
        self.kind.name() + "("@ + spec_debug_str(self.message@) + ")"@
    }

    /// Renders the error as `Debug` renders the error type it came from.
    pub fn debug_string(&self) -> (r: String)
        ensures
            r@ == self.debug_text(),
    {
        let mut out = String::new();
        self.kind.push_name(&mut out);
        out.append("(");
        let quoted = debug_str(self.message.as_str());
        out.append(quoted.as_str());
        out.append(")");
        proof {
            reveal_strlit("(");
            reveal_strlit(")");
            assert(out@ =~= self.debug_text());
        }
        out
    }
}

// ---------------------------------------------------------------------------
// Recorded results
// ---------------------------------------------------------------------------

/// Result newtype for events that can be serialized/deserialized for record/replay.
///
/// `anyhow` results are not serialized directly: the error is kept as its
/// display message in an [`EventError`].
#[derive(Debug)]
pub struct ResultEvent<T, E: EventError>(Result<T, E>);

impl<T: Clone, E: EventError + Clone> Clone for ResultEvent<T, E> {
    fn clone(&self) -> (r: Self) {
        match &self.0 {
            Ok(t) => ResultEvent(Ok(t.clone())),
            Err(e) => ResultEvent(Err(e.clone())),
        }
    }
}

impl<T, E: EventError> ResultEvent<T, E> {
    /// The recorded result.
    pub closed spec fn outcome(&self) -> Result<T, E> {
        self.0
    }

    /// The recorded result `r`.
    pub fn new(r: Result<T, E>) -> (s: Self)
        ensures
            s.outcome() == r,
    {
        ResultEvent(r)
    }

    /// Records the result `ret`, whose failure is given by its message: a
    /// success keeps its value, a failure becomes the error with that message.
    pub fn from_result(ret: Result<T, String>) -> (r: Self)
        ensures
            match ret {
                Ok(t) => r.outcome() == Ok::<T, E>(t),
                Err(m) => r.outcome() matches Err(x) && x.message() == m@,
            },
    {
        match ret {
            Ok(t) => ResultEvent(Ok(t)),
            Err(m) => ResultEvent(Err(E::new(m))),
        }
    }

    /// Records the result `ret`: a success by a clone of its value, a failure
    /// by the display message of its error (its `to_string`), as
    /// [`ResultEvent::from_result`] records a failure with that message.
    pub fn from_anyhow_result(ret: &Result<T, anyhow::Error>) -> (r: Self)
        where T: Clone,
        ensures
            ret is Ok <==> r.outcome() is Ok,
            ret matches Ok(t) ==> r.outcome() matches Ok(v) && vstd::pervasive::cloned(*t, v),
    {
        let converted: Result<T, String> = match ret {
            Ok(t) => Ok(t.clone()),
            Err(e) => Err(anyhow_message(e)),
        };
        Self::from_result(converted)
    }

    /// The recorded result.
    pub fn ret(self) -> (r: Result<T, E>)
        ensures
            r == self.outcome(),
    {
        self.0
    }

    /// Whether the result is a success.
    pub fn is_ok(&self) -> (r: bool)
        ensures
            r == (self.outcome() is Ok),
    {
        self.0.is_ok()
    }
}

/// The first words of the message of a validation that failed on both sides.
pub open spec fn execution_error_prefix() -> Seq<char> {
    "Error on execution: "@
}

/// The words between the two messages of a validation that failed on both sides.
pub open spec fn recording_error_infix() -> Seq<char> {
    " | Error from recording: "@
}

/// The message of a validation that failed on both sides: the replayed
/// error's message `shown`, then the recorded one, `recorded`.
pub open spec fn both_failed_message(shown: Seq<char>, recorded: Seq<char>) -> Seq<char> {
    execution_error_prefix() + shown + recording_error_infix() + recorded
}

impl<T: PartialEq, E: EventError> ResultEvent<T, E> {
    /// Whether the recorded result agrees with the result of replay: both
    /// succeeded with equal values.
    pub open spec fn agrees_with_result(&self, expect: &Result<T, anyhow::Error>) -> bool {
        match (self.outcome(), expect) {
            (Ok(r), Ok(s)) => r.eq_spec(s),
            _ => false,
        }
    }

    /// Checks the recorded result against the result of replay, whose failure
    /// is given by its message. Two successes must carry equal values; two
    /// failures give back the recorded error, with both messages; a success on
    /// one side only fails validation.
    pub fn validate_outcome(&self, expect: Result<&T, String>) -> (r: Result<(), ReplayError>)
        ensures
            r is Ok ==> r == Ok::<(), ReplayError>(()),
            T::obeys_eq_spec() ==> (r is Ok <==> (self.outcome() matches Ok(x) && expect matches Ok(
                s,
            ) && x.eq_spec(s))),
            match (self.outcome(), expect) {
                (Ok(_), Ok(_)) => r is Ok || r == Err::<(), ReplayError>(
                    ReplayError::FailedValidation,
                ),
                (Err(e), Err(f)) => r matches Err(ReplayError::EventError(rec)) && rec.kind
                    == E::error_kind() && rec.message@ == both_failed_message(f@, e.message()),
                _ => r == Err::<(), ReplayError>(ReplayError::FailedValidation),
            },
    {
        match (&self.0, expect) {
            (Ok(r), Ok(s)) => {
                if r == s {
                    Ok(())
                } else {
                    Err(ReplayError::FailedValidation)
                }
            },
            (Err(e), Err(f)) => {
                let mut msg = String::from_str("Error on execution: ");
                msg.append(f.as_str());
                msg.append(" | Error from recording: ");
                msg.append(e.get().as_str());
                proof {
                    reveal_strlit("Error on execution: ");
                    reveal_strlit(" | Error from recording: ");
                    assert(msg@ =~= both_failed_message(f@, e.message()));
                }
                Err(ReplayError::from_event_error(E::new(msg)))
            },
            _ => Err(ReplayError::FailedValidation),
        }
    }

    /// Checks the recorded result against the result of replay, as
    /// [`ResultEvent::validate_outcome`] does with the display message (the
    /// `to_string`) of the replayed error.
    pub fn validate_result(&self, expect: &Result<T, anyhow::Error>) -> (r: Result<(), ReplayError>)
        ensures
            r is Ok ==> r == Ok::<(), ReplayError>(()),
            T::obeys_eq_spec() ==> (r is Ok <==> self.agrees_with_result(expect)),
            (self.outcome() is Ok) != (expect is Ok) ==> r matches Err(ReplayError::FailedValidation),
            self.outcome() is Ok && expect is Ok && r is Err ==> r matches Err(
                ReplayError::FailedValidation,
            ),
            self.outcome() is Err && expect is Err ==> (r matches Err(ReplayError::EventError(rec))
                && rec.kind == E::error_kind() && exists|m: Seq<char>|
                rec.message@ == both_failed_message(m, self.outcome()->Err_0.message())),
    {
        let converted: Result<&T, String> = match expect {
            Ok(s) => Ok(s),
            Err(f) => Err(anyhow_message(f)),
        };
        self.validate_outcome(converted)
    }
}

} // verus!
