//! The recording buffer: events are collected in a window and handed, in
//! order, to the trace writer whenever the window fills or on demand.

use vstd::prelude::*;
use crate::events::common_events::TraceSignatureEvent;
use crate::rr_event::RREvent;
use crate::settings::RecordSettings;

verus! {

/// Recording one more event: the window gains the event and, once it holds
/// `window` events or more, all of it moves to the written events.
/// Returns the written events and the window after the step.
pub open spec fn push_step(
    written: Seq<RREvent>,
    pending: Seq<RREvent>,
    window: nat,
    e: RREvent,
) -> (Seq<RREvent>, Seq<RREvent>) {
    let p = pending.push(e);
    if p.len() >= window {
        (written + p, Seq::empty())
    } else {
        (written, p)
    }
}

/// Recording the events `es` one after another, from the written events and
/// window given.
pub open spec fn push_all(
    written: Seq<RREvent>,
    pending: Seq<RREvent>,
    window: nat,
    es: Seq<RREvent>,
) -> (Seq<RREvent>, Seq<RREvent>)
    decreases es.len(),
{
    if es.len() == 0 {
        (written, pending)
    } else {
        let (w, p) = push_all(written, pending, window, es.drop_last());
        push_step(w, p, window, es.last())
    }
}

/// What a recording writes when it is finished after recording `es`: the
/// end-of-trace marker is recorded and everything is flushed.
pub open spec fn finished_trace(
    written: Seq<RREvent>,
    pending: Seq<RREvent>,
    window: nat,
    es: Seq<RREvent>,
) -> Seq<RREvent> {
    let (w, p) = push_all(written, pending, window, es);
    let (w2, p2) = push_step(w, p, window, RREvent::Eof);
    w2 + p2
}

/// Buffer to write recording data.
///
/// Recorded events collect in a window of `event_window_size` events; a full
/// window is flushed to the events ready for the trace writer, which takes
/// them with [`RecordBuffer::take_written`] and serialises them in order.
pub struct RecordBuffer {
    /// In-memory event buffer to enable windows for coalescing.
    buf: Vec<RREvent>,
    /// Events flushed and not yet taken by the trace writer.
    written: Vec<RREvent>,
    /// Settings in record configuration.
    settings: RecordSettings,
}

impl RecordBuffer {
    /// The events flushed and not yet taken by the writer.
    pub closed spec fn written_events(&self) -> Seq<RREvent> {
        self.written@
    }

    /// The events recorded and not yet flushed.
    pub closed spec fn pending_events(&self) -> Seq<RREvent> {
        self.buf@
    }

    /// The settings of the recording.
    pub closed spec fn record_settings(&self) -> RecordSettings {
        self.settings
    }

    /// Every event recorded since the writer last took events, in order.
    pub open spec fn history(&self) -> Seq<RREvent> {
        self.written_events() + self.pending_events()
    }

    /// A window never holds as many events as it is wide.
    pub open spec fn window_bounded(&self) -> bool {
        self.pending_events().len() == 0
            || self.pending_events().len() < self.record_settings().event_window_size
    }

    /// Construct a recorder with the given settings; the trace starts with its
    /// signature, which names the trace format `checksum` and carries the settings.
    pub fn new_recorder(checksum: String, settings: RecordSettings) -> (r: Self)
        ensures
            r.record_settings() == settings,
            r.window_bounded(),
            ({
                let (w, p) = push_step(
                    Seq::empty(),
                    Seq::empty(),
                    settings.event_window_size as nat,
                    RREvent::TraceSignature(TraceSignatureEvent { checksum, settings }),
                );
                r.written_events() == w && r.pending_events() == p
            }),
    {
        let mut buf = RecordBuffer { buf: Vec::new(), written: Vec::new(), settings };
        buf.push_event(RREvent::TraceSignature(TraceSignatureEvent { checksum, settings }));
        buf
    }

    /// Push a new record event to the buffer, flushing the window once it
    /// holds `event_window_size` events.
    pub fn push_event(&mut self, event: RREvent)
        ensures
            final(self).record_settings() == old(self).record_settings(),
            (final(self).written_events(), final(self).pending_events()) == push_step(
                old(self).written_events(),
                old(self).pending_events(),
                old(self).record_settings().event_window_size as nat,
                event,
            ),
            final(self).window_bounded(),
    {
        self.buf.push(event);
        if self.buf.len() >= self.settings.event_window_size {
            self.flush();
        }
    }

    /// Record the event generated by `f`.
    pub fn record_event<F: FnOnce() -> RREvent>(&mut self, f: F)
        requires
            f.requires(()),
        ensures
            final(self).record_settings() == old(self).record_settings(),
            final(self).window_bounded(),
            exists|e: RREvent|
                f.ensures((), e) && (final(self).written_events(), final(self).pending_events())
                    == push_step(
                    old(self).written_events(),
                    old(self).pending_events(),
                    old(self).record_settings().event_window_size as nat,
                    e,
                ),
    {
        let event = f();
        self.push_event(event);
    }

    /// Record the event generated by `f` only when validation is requested.
    pub fn record_event_validation<F: FnOnce() -> RREvent>(&mut self, f: F)
        requires
            f.requires(()),
        ensures
            final(self).record_settings() == old(self).record_settings(),
            !old(self).record_settings().add_validation ==> final(self).written_events()
                == old(self).written_events() && final(self).pending_events()
                == old(self).pending_events(),
            old(self).window_bounded() ==> final(self).window_bounded(),
            old(self).record_settings().add_validation ==> exists|e: RREvent|
                f.ensures((), e) && (final(self).written_events(), final(self).pending_events())
                    == push_step(
                    old(self).written_events(),
                    old(self).pending_events(),
                    old(self).record_settings().event_window_size as nat,
                    e,
                ),
    {
        if self.settings.add_validation {
            self.record_event(f);
        }
    }

    /// Trigger an explicit flush: the window moves to the written events.
    pub fn flush(&mut self)
        ensures
            final(self).record_settings() == old(self).record_settings(),
            final(self).written_events() == old(self).written_events() + old(self).pending_events(),
            final(self).pending_events() == Seq::<RREvent>::empty(),
    {
        let ghost old_written = self.written@;
        let ghost old_buf = self.buf@;
        self.written.append(&mut self.buf);
        assert(self.written@ =~= old_written + old_buf);
    }

    /// End the trace: record the end-of-trace marker and flush everything.
    pub fn finish(&mut self)
        ensures
            final(self).record_settings() == old(self).record_settings(),
            ({
                let (w, p) = push_step(
                    old(self).written_events(),
                    old(self).pending_events(),
                    old(self).record_settings().event_window_size as nat,
                    RREvent::Eof,
                );
                final(self).written_events() == w + p
            }),
            final(self).pending_events() == Seq::<RREvent>::empty(),
    {
        self.push_event(RREvent::Eof);
        self.flush();
    }

    /// Hands the flushed events, in order, to the trace writer.
    pub fn take_written(&mut self) -> (r: Vec<RREvent>)
        ensures
            r@ == old(self).written_events(),
            final(self).written_events() == Seq::<RREvent>::empty(),
            final(self).pending_events() == old(self).pending_events(),
            final(self).record_settings() == old(self).record_settings(),
    {
        let mut out = Vec::new();
        std::mem::swap(&mut out, &mut self.written);
        out
    }

    /// Get settings associated with the recording process.
    pub fn settings(&self) -> (r: &RecordSettings)
        ensures
            *r == self.record_settings(),
    {
        &self.settings
    }
}

/// A recording step keeps every event: what is written plus what waits in the
/// window is what was there before, followed by the new event.
pub proof fn lemma_push_step_keeps_events(
    written: Seq<RREvent>,
    pending: Seq<RREvent>,
    window: nat,
    e: RREvent,
)
    ensures
        ({
            let (w, p) = push_step(written, pending, window, e);
            w + p == written + pending.push(e)
        }),
        ({
            let (w, p) = push_step(written, pending, window, e);
            p.len() == 0 || p.len() < window
        }),
{
    let (w, p) = push_step(written, pending, window, e);
    if pending.push(e).len() >= window {
        assert(w + p =~= written + pending.push(e));
    } else {
        assert(w + p =~= written + pending.push(e));
    }
}

/// Recording never loses, duplicates or reorders events: after recording
/// `es`, the written events followed by the window are the events there were
/// before, followed by `es`.
pub proof fn lemma_record_keeps_events(
    written: Seq<RREvent>,
    pending: Seq<RREvent>,
    window: nat,
    es: Seq<RREvent>,
)
    ensures
        ({
            let (w, p) = push_all(written, pending, window, es);
            w + p == written + pending + es
        }),
    decreases es.len(),
{
    if es.len() == 0 {
        assert(written + pending + es =~= written + pending);
    } else {
        lemma_record_keeps_events(written, pending, window, es.drop_last());
        let (w, p) = push_all(written, pending, window, es.drop_last());
        lemma_push_step_keeps_events(w, p, window, es.last());
        assert(es.drop_last().push(es.last()) =~= es);
        assert(written + pending + es =~= (written + pending + es.drop_last()).push(es.last()));
        assert(w + p.push(es.last()) =~= (w + p).push(es.last()));
    }
}

/// A finished recording writes exactly what was recorded, then the
/// end-of-trace marker.
pub proof fn lemma_finished_trace(
    written: Seq<RREvent>,
    pending: Seq<RREvent>,
    window: nat,
    es: Seq<RREvent>,
)
    ensures
        finished_trace(written, pending, window, es) == written + pending + es + seq![RREvent::Eof],
{
    lemma_record_keeps_events(written, pending, window, es);
    let (w, p) = push_all(written, pending, window, es);
    lemma_push_step_keeps_events(w, p, window, RREvent::Eof);
    assert(w + p.push(RREvent::Eof) =~= (w + p).push(RREvent::Eof));
    assert((written + pending + es).push(RREvent::Eof) =~= written + pending + es + seq![RREvent::Eof]);
}

} // verus!
