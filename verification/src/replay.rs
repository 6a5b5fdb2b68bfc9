//! The replay buffer: it reads a trace back, event by event, skipping
//! diagnostic events and stopping at the end-of-trace marker.

use vstd::prelude::*;
use std::collections::VecDeque;
use vstd::std_specs::convert::TryFromSpec;
use crate::error::ReplayError;
use crate::events::common_events::TraceSignatureEvent;
use crate::record::{finished_trace, lemma_finished_trace};
use crate::rr_event::RREvent;
use crate::settings::{RecordSettings, ReplaySettings, DEFAULT_EVENT_WINDOW_SIZE};
use crate::validate::Validate;

verus! {

/// What the replay buffer makes of one event read from the trace.
#[derive(Debug)]
pub enum ReadOutcome {
    /// A functional event to hand to the replay.
    Deliver(RREvent),
    /// Reading failed; the replay gets this error.
    Fail(ReplayError),
    /// A diagnostic event was skipped; read the next one.
    ReadAgain,
    /// The end-of-trace marker was reached; nothing more is read.
    Finished,
}

/// What replay hands back for a read that is not skipped: the event, the
/// read error, or nothing at the end of the trace.
pub open spec fn next_item(read: Result<RREvent, String>) -> Option<Result<RREvent, ReplayError>> {
    match read {
        Err(m) => Some(Err(ReplayError::FailedRead(m))),
        Ok(RREvent::Eof) => None,
        Ok(e) => Some(Ok(e)),
    }
}

/// Whether a read is a diagnostic event, which replay skips.
pub open spec fn is_skipped(read: Result<RREvent, String>) -> bool {
    read matches Ok(e) && e.spec_is_diagnostic()
}

/// The number of diagnostic events at the front of `reads`.
pub open spec fn leading_skipped(reads: Seq<Result<RREvent, String>>) -> nat
    decreases reads.len(),
{
    if reads.len() > 0 && is_skipped(reads[0]) {
        1 + leading_skipped(reads.drop_first())
    } else {
        0
    }
}

/// Whether `reads` holds a read that replay does not skip.
pub open spec fn reaches_stop(reads: Seq<Result<RREvent, String>>) -> bool {
    leading_skipped(reads) < reads.len()
}

/// The events a replay delivers from the trace `trace`, in order, up to the
/// end-of-trace marker: the functional events, without the diagnostic ones.
pub open spec fn delivered(trace: Seq<RREvent>) -> Seq<RREvent>
    decreases trace.len(),
{
    if trace.len() == 0 {
        Seq::empty()
    } else if trace[0] is Eof {
        Seq::empty()
    } else if trace[0].spec_is_diagnostic() {
        delivered(trace.drop_first())
    } else {
        seq![trace[0]] + delivered(trace.drop_first())
    }
}

/// The functional events of `es`: those replay does not skip.
pub open spec fn functional(es: Seq<RREvent>) -> Seq<RREvent> {
    es.filter(|e: RREvent| !e.spec_is_diagnostic())
}

/// Whether `es` holds no end-of-trace marker.
pub open spec fn no_eof(es: Seq<RREvent>) -> bool {
    forall|i: int| 0 <= i < es.len() ==> !(#[trigger] es[i] is Eof)
}

/// The reads of a trace whose every event was read successfully.
pub open spec fn read_all(trace: Seq<RREvent>) -> Seq<Result<RREvent, String>> {
    trace.map_values(|e: RREvent| Ok::<RREvent, String>(e))
}

/// Buffer to read replay data.
pub struct ReplayBuffer {
    /// Settings in replay configuration.
    settings: ReplaySettings,
    /// Settings for record configuration (encoded in the trace).
    trace_settings: RecordSettings,
    /// Whether the trace has been completely read.
    eof_encountered: bool,
}

/// The event behind a replay item: the error of a failed read, or
/// `EmptyBuffer` at the end of the trace.
pub fn event_or_empty(item: Option<Result<RREvent, ReplayError>>) -> (r: Result<RREvent, ReplayError>)
    ensures
        r == match item {
            Some(x) => x,
            None => Err(ReplayError::EmptyBuffer),
        },
{
    match item {
        Some(x) => x,
        None => Err(ReplayError::EmptyBuffer),
    }
}

/// The event behind a replay item, converted to the event type `T`.
pub fn typed_event<T: TryFrom<RREvent, Error = ReplayError>>(
    item: Option<Result<RREvent, ReplayError>>,
) -> (r: Result<T, ReplayError>)
    ensures
        item is None ==> r == Err::<T, ReplayError>(ReplayError::EmptyBuffer),
        item matches Some(Err(x)) ==> r == Err::<T, ReplayError>(x),
        T::obeys_try_from_spec() ==> r == match item {
            Some(Ok(e)) => T::try_from_spec(e),
            Some(Err(x)) => Err(x),
            None => Err(ReplayError::EmptyBuffer),
        },
{
    match event_or_empty(item) {
        Ok(e) => T::try_from(e),
        Err(x) => Err(x),
    }
}

impl ReplayBuffer {
    /// The replay settings.
    pub closed spec fn replay_settings(&self) -> ReplaySettings {
        self.settings
    }

    /// The record settings read from the trace's signature.
    pub closed spec fn recorded_settings(&self) -> RecordSettings {
        self.trace_settings
    }

    /// Whether the end-of-trace marker has been read.
    pub closed spec fn exhausted(&self) -> bool {
        self.eof_encountered
    }

    /// A buffer that has read nothing yet.
    pub fn new(settings: ReplaySettings) -> (r: Self)
        ensures
            r.replay_settings() == settings,
            r.recorded_settings() == (RecordSettings {
                add_validation: false,
                event_window_size: DEFAULT_EVENT_WINDOW_SIZE,
            }),
            !r.exhausted(),
    {
        ReplayBuffer { settings, trace_settings: RecordSettings::default(), eof_encountered: false }
    }

    /// Whether the end-of-trace marker has been read; after it, replay
    /// yields nothing more.
    pub fn is_exhausted(&self) -> (r: bool)
        ensures
            r == self.exhausted(),
    {
        self.eof_encountered
    }

    /// Decides what to do with one read from the trace: a failed read is an
    /// error, the end-of-trace marker finishes the replay, diagnostic events
    /// are skipped and any other event is delivered.
    pub fn accept_read(&mut self, read: Result<RREvent, String>) -> (r: ReadOutcome)
        requires
            !old(self).exhausted(),
        ensures
            final(self).replay_settings() == old(self).replay_settings(),
            final(self).recorded_settings() == old(self).recorded_settings(),
            final(self).exhausted() == (read matches Ok(RREvent::Eof)),
            is_skipped(read) ==> r is ReadAgain,
            !is_skipped(read) ==> match next_item(read) {
                Some(Ok(e)) => r == ReadOutcome::Deliver(e),
                Some(Err(x)) => r == ReadOutcome::Fail(x),
                None => r is Finished,
            },
    {
        match read {
            Err(m) => ReadOutcome::Fail(ReplayError::FailedRead(m)),
            Ok(event) => {
                if let RREvent::Eof = &event {
                    self.eof_encountered = true;
                    ReadOutcome::Finished
                } else if event.is_diagnostic() {
                    ReadOutcome::ReadAgain
                } else {
                    ReadOutcome::Deliver(event)
                }
            },
        }
    }

    /// The next functional event of the trace, read from the front of
    /// `reads`: the reads of diagnostic events before it are consumed too.
    /// Gives nothing once the end-of-trace marker has been read.
    pub fn next_in(&mut self, reads: &mut VecDeque<Result<RREvent, String>>) -> (r: Option<
        Result<RREvent, ReplayError>,
    >)
        requires
            old(self).exhausted() || reaches_stop(old(reads)@),
        ensures
            final(self).replay_settings() == old(self).replay_settings(),
            final(self).recorded_settings() == old(self).recorded_settings(),
            old(self).exhausted() ==> r is None && final(self).exhausted() && final(reads)@ == old(
                reads,
            )@,
            !old(self).exhausted() ==> ({
                let k = leading_skipped(old(reads)@);
                &&& final(reads)@ == old(reads)@.skip(k + 1int)
                &&& r == next_item(old(reads)@[k as int])
                &&& final(self).exhausted() == (old(reads)@[k as int] matches Ok(RREvent::Eof))
            }),
    {
        if self.eof_encountered {
            return None;
        }
        let ghost start = reads@;
        let ghost mut skipped: nat = 0;
        loop
            invariant
                !self.eof_encountered,
                !old(self).eof_encountered,
                start == old(reads)@,
                self.settings == old(self).settings,
                self.trace_settings == old(self).trace_settings,
                reaches_stop(start),
                skipped <= leading_skipped(start),
                reads@ == start.skip(skipped as int),
                leading_skipped(reads@) + skipped == leading_skipped(start),
            decreases reads@.len(),
        {
            proof {
                assert(reads@.len() > 0);
            }
            let read = reads.pop_front().unwrap();
            let ghost before = start.skip(skipped as int);
            proof {
                assert(read == before[0]);
                assert(before[0] == start[skipped as int]);
                assert(before.drop_first() =~= start.skip(skipped + 1int));
            }
            proof {
                if !is_skipped(read) {
                    assert(leading_skipped(before) == 0);
                } else {
                    assert(leading_skipped(before) == 1 + leading_skipped(before.drop_first()));
                }
            }
            match self.accept_read(read) {
                ReadOutcome::Deliver(e) => {
                    return Some(Ok(e));
                },
                ReadOutcome::Fail(x) => {
                    return Some(Err(x));
                },
                ReadOutcome::ReadAgain => {
                    proof {
                        skipped = skipped + 1;
                    }
                },
                ReadOutcome::Finished => {
                    return None;
                },
            }
        }
    }

    /// The next functional event, or `EmptyBuffer` at the end of the trace.
    pub fn next_event(&mut self, reads: &mut VecDeque<Result<RREvent, String>>) -> (r: Result<
        RREvent,
        ReplayError,
    >)
        requires
            old(self).exhausted() || reaches_stop(old(reads)@),
        ensures
            final(self).replay_settings() == old(self).replay_settings(),
            final(self).recorded_settings() == old(self).recorded_settings(),
            old(self).exhausted() ==> r == Err::<RREvent, ReplayError>(ReplayError::EmptyBuffer)
                && final(reads)@ == old(reads)@ && final(self).exhausted(),
            !old(self).exhausted() ==> ({
                let k = leading_skipped(old(reads)@);
                &&& final(reads)@ == old(reads)@.skip(k + 1int)
                &&& r == match next_item(old(reads)@[k as int]) {
                    Some(x) => x,
                    None => Err(ReplayError::EmptyBuffer),
                }
                &&& final(self).exhausted() == (old(reads)@[k as int] matches Ok(RREvent::Eof))
            }),
    {
        let item = self.next_in(reads);
        event_or_empty(item)
    }

    /// The next functional event, converted to the event type `T`.
    pub fn next_event_typed<T: TryFrom<RREvent, Error = ReplayError>>(
        &mut self,
        reads: &mut VecDeque<Result<RREvent, String>>,
    ) -> (r: Result<T, ReplayError>)
        requires
            old(self).exhausted() || reaches_stop(old(reads)@),
        ensures
            final(self).replay_settings() == old(self).replay_settings(),
            final(self).recorded_settings() == old(self).recorded_settings(),
            old(self).exhausted() ==> r == Err::<T, ReplayError>(ReplayError::EmptyBuffer)
                && final(reads)@ == old(reads)@ && final(self).exhausted(),
            !old(self).exhausted() ==> ({
                let k = leading_skipped(old(reads)@);
                &&& final(reads)@ == old(reads)@.skip(k + 1int)
                &&& T::obeys_try_from_spec() ==> r == match next_item(old(reads)@[k as int]) {
                    Some(Ok(e)) => T::try_from_spec(e),
                    Some(Err(x)) => Err(x),
                    None => Err(ReplayError::EmptyBuffer),
                }
                &&& final(self).exhausted() == (old(reads)@[k as int] matches Ok(RREvent::Eof))
            }),
    {
        let item = self.next_in(reads);
        typed_event(item)
    }

    /// Whether the trace holds validation events.
    pub fn validation_recorded(&self) -> (r: bool)
        ensures
            r == self.recorded_settings().add_validation,
    {
        self.trace_settings.add_validation
    }

    /// Checks a validation event against the value replay observed, when
    /// validation is requested; accepts it otherwise.
    pub fn check_validation<Y: ?Sized, T: Validate<Y>>(&self, event: &T, expect: &Y) -> (r: Result<
        (),
        ReplayError,
    >)
        ensures
            !self.replay_settings().validate ==> r == Ok::<(), ReplayError>(()),
            self.replay_settings().validate ==> (r is Ok <==> event.agrees_with(expect))
                && event.validated(expect, r),
    {
        if self.settings.validate {
            event.validate(expect)
        } else {
            Ok(())
        }
    }

    /// Process the next validation event when the trace holds validation
    /// events, and check it when validation is requested.
    pub fn next_event_validation<Y: ?Sized, T: TryFrom<RREvent, Error = ReplayError> + Validate<Y>>(
        &mut self,
        reads: &mut VecDeque<Result<RREvent, String>>,
        expect: &Y,
    ) -> (r: Result<(), ReplayError>)
        requires
            old(self).exhausted() || !old(self).recorded_settings().add_validation || reaches_stop(
                old(reads)@,
            ),
        ensures
            final(self).replay_settings() == old(self).replay_settings(),
            final(self).recorded_settings() == old(self).recorded_settings(),
            !old(self).recorded_settings().add_validation ==> r is Ok && final(reads)@ == old(
                reads,
            )@ && final(self).exhausted() == old(self).exhausted(),
            old(self).recorded_settings().add_validation && old(self).exhausted() ==> r
                == Err::<(), ReplayError>(ReplayError::EmptyBuffer) && final(reads)@ == old(reads)@
                && final(self).exhausted(),
            old(self).recorded_settings().add_validation && !old(self).exhausted() ==> ({
                let k = leading_skipped(old(reads)@);
                &&& final(reads)@ == old(reads)@.skip(k + 1int)
                &&& final(self).exhausted() == (old(reads)@[k as int] matches Ok(RREvent::Eof))
                &&& T::obeys_try_from_spec() ==> match next_item(old(reads)@[k as int]) {
                    Some(Ok(e)) => match T::try_from_spec(e) {
                        Ok(t) => if old(self).replay_settings().validate {
                            (r is Ok <==> t.agrees_with(expect)) && t.validated(expect, r)
                        } else {
                            r == Ok::<(), ReplayError>(())
                        },
                        Err(x) => r == Err::<(), ReplayError>(x),
                    },
                    Some(Err(x)) => r == Err::<(), ReplayError>(x),
                    None => r == Err::<(), ReplayError>(ReplayError::EmptyBuffer),
                }
            }),
    {
        if self.trace_settings.add_validation {
            match self.next_event_typed::<T>(reads) {
                Ok(event) => self.check_validation(&event, expect),
                Err(x) => Err(x),
            }
        } else {
            Ok(())
        }
    }

    /// Takes the trace's signature (the first functional event): it must
    /// name the trace format `version`; the record settings it carries become
    /// the buffer's.
    pub fn accept_signature(&mut self, version: &str, item: Option<Result<RREvent, ReplayError>>) -> (r:
        Result<(), ReplayError>)
        ensures
            final(self).replay_settings() == old(self).replay_settings(),
            final(self).exhausted() == old(self).exhausted(),
            r == match item {
                Some(Ok(RREvent::TraceSignature(s))) => if s.checksum@ == version@ {
                    Ok(())
                } else {
                    Err(ReplayError::FailedValidation)
                },
                Some(Ok(_)) => Err(ReplayError::IncorrectEventVariant),
                Some(Err(x)) => Err(x),
                None => Err(ReplayError::EmptyBuffer),
            },
            r is Ok ==> (item matches Some(Ok(RREvent::TraceSignature(s)))
                && final(self).recorded_settings() == s.settings),
            r is Err ==> final(self).recorded_settings() == old(self).recorded_settings(),
    {
        let signature: Result<TraceSignatureEvent, ReplayError> = typed_event(item);
        match signature {
            Ok(signature) => {
                match signature.validate(version) {
                    Ok(()) => {
                        self.trace_settings = signature.settings;
                        Ok(())
                    },
                    Err(x) => Err(x),
                }
            },
            Err(x) => Err(x),
        }
    }

    /// Constructs a replayer on the trace reads `reads`: the trace must start
    /// with a signature naming the trace format `version`.
    pub fn new_replayer(
        reads: &mut VecDeque<Result<RREvent, String>>,
        settings: ReplaySettings,
        version: &str,
    ) -> (r: Result<Self, ReplayError>)
        requires
            reaches_stop(old(reads)@),
        ensures
            ({
                let k = leading_skipped(old(reads)@);
                &&& final(reads)@ == old(reads)@.skip(k + 1int)
                &&& match old(reads)@[k as int] {
                    Ok(RREvent::TraceSignature(s)) => if s.checksum@ == version@ {
                        r matches Ok(b) && b.replay_settings() == settings && b.recorded_settings()
                            == s.settings && !b.exhausted()
                    } else {
                        r == Err::<Self, ReplayError>(ReplayError::FailedValidation)
                    },
                    Ok(RREvent::Eof) => r == Err::<Self, ReplayError>(ReplayError::EmptyBuffer),
                    Ok(_) => r == Err::<Self, ReplayError>(ReplayError::IncorrectEventVariant),
                    Err(m) => r == Err::<Self, ReplayError>(ReplayError::FailedRead(m)),
                }
            }),
    {
        let mut buf = ReplayBuffer::new(settings);
        let item = buf.next_in(reads);
        match buf.accept_signature(version, item) {
            Ok(()) => Ok(buf),
            Err(x) => Err(x),
        }
    }

    /// Whether functional events are left in the trace when the replay is
    /// done with it: the next read that is not skipped is an event rather
    /// than the end-of-trace marker. A failed read is its error.
    pub fn has_remaining_events(&mut self, reads: &mut VecDeque<Result<RREvent, String>>) -> (r:
        Result<bool, ReplayError>)
        requires
            old(self).exhausted() || reaches_stop(old(reads)@),
        ensures
            final(self).replay_settings() == old(self).replay_settings(),
            final(self).recorded_settings() == old(self).recorded_settings(),
            old(self).exhausted() ==> r == Ok::<bool, ReplayError>(false) && final(reads)@ == old(
                reads,
            )@,
            !old(self).exhausted() ==> ({
                let k = leading_skipped(old(reads)@);
                &&& final(reads)@ == old(reads)@.skip(k + 1int)
                &&& r == match next_item(old(reads)@[k as int]) {
                    Some(Ok(_)) => Ok(true),
                    Some(Err(x)) => Err(x),
                    None => Ok(false),
                }
            }),
    {
        match self.next_in(reads) {
            Some(Ok(_)) => Ok(true),
            Some(Err(x)) => Err(x),
            None => Ok(false),
        }
    }

    /// Get settings associated with the replay process.
    pub fn settings(&self) -> (r: &ReplaySettings)
        ensures
            *r == self.replay_settings(),
    {
        &self.settings
    }

    /// Get the settings (embedded within the trace) during recording.
    pub fn trace_settings(&self) -> (r: &RecordSettings)
        ensures
            *r == self.recorded_settings(),
    {
        &self.trace_settings
    }
}

/// Delivery goes event by event: the functional events before the rest of
/// the trace come first, in order.
pub proof fn lemma_delivered_prefix(es: Seq<RREvent>, tail: Seq<RREvent>)
    requires
        no_eof(es),
    ensures
        delivered(es + tail) == functional(es) + delivered(tail),
    decreases es.len(),
{
    if es.len() == 0 {
        assert(es + tail =~= tail);
        assert(functional(es) =~= Seq::<RREvent>::empty());
        assert(functional(es) + delivered(tail) =~= delivered(tail));
    } else {
        let rest = es.drop_first();
        assert(no_eof(rest)) by {
            assert forall|i: int| 0 <= i < rest.len() implies !(#[trigger] rest[i] is Eof) by {
                assert(rest[i] == es[i + 1]);
            }
        }
        lemma_delivered_prefix(rest, tail);
        assert(es =~= seq![es[0]] + rest);
        assert((es + tail)[0] == es[0]);
        assert((es + tail).drop_first() =~= rest + tail);
        assert(!(es[0] is Eof));
        rest.lemma_filter_prepend(es[0], |e: RREvent| !e.spec_is_diagnostic());
        if es[0].spec_is_diagnostic() {
            assert(functional(es) == functional(rest));
        } else {
            assert(functional(es) =~= seq![es[0]] + functional(rest));
            assert(seq![es[0]] + (functional(rest) + delivered(tail)) =~= seq![es[0]]
                + functional(rest) + delivered(tail));
        }
    }
}

/// A read that is not skipped bounds the number of skipped reads before it.
pub proof fn lemma_leading_skipped_bound(reads: Seq<Result<RREvent, String>>, j: int)
    requires
        0 <= j < reads.len(),
        !is_skipped(reads[j]),
    ensures
        leading_skipped(reads) <= j,
    decreases j,
{
    if j > 0 && is_skipped(reads[0]) {
        assert(reads.drop_first()[j - 1] == reads[j]);
        lemma_leading_skipped_bound(reads.drop_first(), j - 1);
    }
}

/// One call of [`ReplayBuffer::next_in`] on the reads of a trace takes one
/// step of delivery: the event it hands back is the first delivered one, and
/// the reads left are those of the rest of the trace.
pub proof fn lemma_delivered_step(trace: Seq<RREvent>)
    requires
        reaches_stop(read_all(trace)),
    ensures
        ({
            let k = leading_skipped(read_all(trace));
            &&& k < trace.len()
            &&& read_all(trace)[k as int] == Ok::<RREvent, String>(trace[k as int])
            &&& read_all(trace).skip(k + 1int) == read_all(trace.skip(k + 1int))
            &&& trace[k as int] is Eof ==> delivered(trace) == Seq::<RREvent>::empty()
            &&& !(trace[k as int] is Eof) ==> delivered(trace) == seq![trace[k as int]] + delivered(
                trace.skip(k + 1int),
            )
        }),
    decreases trace.len(),
{
    let reads = read_all(trace);
    let k = leading_skipped(reads);
    assert(reads.len() == trace.len());
    assert(reads[0] == Ok::<RREvent, String>(trace[0]));
    if is_skipped(reads[0]) {
        let rest = trace.drop_first();
        assert(read_all(rest) =~= reads.drop_first());
        lemma_delivered_step(rest);
        assert(trace.skip(k + 1int) =~= rest.skip(k as int));
        assert(reads.skip(k + 1int) =~= read_all(trace.skip(k + 1int)));
        assert(trace[k as int] == rest[k - 1]);
    } else {
        assert(k == 0);
        assert(reads.skip(1) =~= read_all(trace.skip(1)));
        assert(trace.skip(1) =~= trace.drop_first());
    }
}

/// Replaying a finished recording delivers exactly the functional events
/// that were recorded, in the order they were recorded, and then nothing:
/// the trace is what was recorded followed by the end-of-trace marker.
pub proof fn lemma_record_replay_roundtrip(window: nat, es: Seq<RREvent>)
    requires
        no_eof(es),
    ensures
        finished_trace(Seq::empty(), Seq::empty(), window, es) == es + seq![RREvent::Eof],
        reaches_stop(read_all(finished_trace(Seq::empty(), Seq::empty(), window, es))),
        delivered(finished_trace(Seq::empty(), Seq::empty(), window, es)) == functional(es),
{
    lemma_finished_trace(Seq::empty(), Seq::empty(), window, es);
    let trace = es + seq![RREvent::Eof];
    assert(Seq::<RREvent>::empty() + Seq::<RREvent>::empty() + es + seq![RREvent::Eof] =~= trace);
    lemma_delivered_prefix(es, seq![RREvent::Eof]);
    assert(delivered(seq![RREvent::Eof]) == Seq::<RREvent>::empty());
    assert(functional(es) + Seq::<RREvent>::empty() =~= functional(es));
    let reads = read_all(trace);
    assert(reads[es.len() as int] == Ok::<RREvent, String>(RREvent::Eof));
    lemma_leading_skipped_bound(reads, es.len() as int);
}

/// Replay starts where recording started: in the trace of a finished
/// recording whose first event is the signature `sig`, the first read that
/// replay does not skip is that signature, and the reads after it are those
/// of the events recorded after it, then the end-of-trace marker, from which
/// replay delivers exactly the functional ones.
pub proof fn lemma_signature_roundtrip(window: nat, sig: TraceSignatureEvent, es: Seq<RREvent>)
    requires
        no_eof(es),
    ensures
        ({
            let trace = finished_trace(
                Seq::empty(),
                Seq::empty(),
                window,
                seq![RREvent::TraceSignature(sig)] + es,
            );
            let k = leading_skipped(read_all(trace));
            &&& reaches_stop(read_all(trace))
            &&& read_all(trace)[k as int] == Ok::<RREvent, String>(RREvent::TraceSignature(sig))
            &&& read_all(trace).skip(k + 1int) == read_all(es + seq![RREvent::Eof])
            &&& reaches_stop(read_all(es + seq![RREvent::Eof]))
            &&& delivered(es + seq![RREvent::Eof]) == functional(es)
        }),
{
    let all = seq![RREvent::TraceSignature(sig)] + es;
    assert(no_eof(all)) by {
        assert forall|i: int| 0 <= i < all.len() implies !(#[trigger] all[i] is Eof) by {
            if i > 0 {
                assert(all[i] == es[i - 1]);
            }
        }
    }
    lemma_record_replay_roundtrip(window, all);
    lemma_record_replay_roundtrip(window, es);
    lemma_finished_trace(Seq::empty(), Seq::empty(), window, es);
    assert(Seq::<RREvent>::empty() + Seq::<RREvent>::empty() + es + seq![RREvent::Eof] =~= es
        + seq![RREvent::Eof]);
    let trace = all + seq![RREvent::Eof];
    let reads = read_all(trace);
    assert(reads[0] == Ok::<RREvent, String>(RREvent::TraceSignature(sig)));
    assert(!is_skipped(reads[0]));
    assert(leading_skipped(reads) == 0);
    assert(trace.skip(1) =~= es + seq![RREvent::Eof]);
    assert(reads.skip(1) =~= read_all(trace.skip(1)));
}

/// Replay never skips a functional event: a read of an event that is not
/// a no-op, a custom message or the end-of-trace marker is the first read
/// that replay stops at, and it is handed back as it was read.
pub proof fn lemma_functional_read_delivered(e: RREvent, rest: Seq<Result<RREvent, String>>)
    requires
        !(e is Nop),
        !(e is CustomMessage),
        !(e is Eof),
    ensures
        leading_skipped(seq![Ok::<RREvent, String>(e)] + rest) == 0,
        reaches_stop(seq![Ok::<RREvent, String>(e)] + rest),
        next_item(Ok::<RREvent, String>(e)) == Some(Ok::<RREvent, ReplayError>(e)),
{
    let reads = seq![Ok::<RREvent, String>(e)] + rest;
    assert(reads[0] == Ok::<RREvent, String>(e));
    assert(!is_skipped(reads[0]));
}

/// The functional events of a trace without no-op or custom-message events
/// are all of its events.
proof fn lemma_functional_all(es: Seq<RREvent>)
    requires
        forall|i: int| 0 <= i < es.len() ==> !(#[trigger] es[i] is Nop) && !(es[i] is CustomMessage),
    ensures
        functional(es) == es,
    decreases es.len(),
{
    if es.len() == 0 {
        assert(functional(es) =~= es);
    } else {
        let rest = es.drop_first();
        assert forall|i: int| 0 <= i < rest.len() implies !(#[trigger] rest[i] is Nop) && !(
        rest[i] is CustomMessage) by {
            assert(rest[i] == es[i + 1]);
        }
        lemma_functional_all(rest);
        rest.lemma_filter_prepend(es[0], |e: RREvent| !e.spec_is_diagnostic());
        assert(es =~= seq![es[0]] + rest);
        assert(!es[0].spec_is_diagnostic());
    }
}

/// A trace whose events hold no no-op or custom-message event is delivered
/// whole: replay hands back every one of its events, in order, up to the
/// end-of-trace marker.
pub proof fn lemma_functional_trace_delivered(es: Seq<RREvent>)
    requires
        no_eof(es),
        forall|i: int| 0 <= i < es.len() ==> !(#[trigger] es[i] is Nop) && !(es[i] is CustomMessage),
    ensures
        delivered(es + seq![RREvent::Eof]) == es,
{
    lemma_delivered_prefix(es, seq![RREvent::Eof]);
    lemma_functional_all(es);
    assert(delivered(seq![RREvent::Eof]) == Seq::<RREvent>::empty());
    assert(es + Seq::<RREvent>::empty() =~= es);
}

} // verus!
