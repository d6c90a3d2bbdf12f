//! A reference consumer: a sequential model of a host that conforms to the
//! subscriber contract.
//!
//! The bridge itself cannot enforce what a host does with the records it is
//! handed; it can only say what a conforming host looks like. This consumer
//! is that statement, made executable and proved: it respects its own
//! `enabled` filter, hands out the sentinel handle for every span it drops,
//! ignores operations on unknown or sentinel handles and records on spans
//! that were exited and not re-entered, applies the reserved-key remapping
//! when a span arrives under the sentinel name, and
//! never lets two recorded spans share a handle. Tests run host-side
//! behaviour against it; it is driven through `&mut self` by one sequential
//! caller, which is the ordering model the bridge promises anything about.

use vstd::prelude::*;

use crate::fields::FieldsView;
use crate::fields::WasmValues;
use crate::level::WasmLevel;
use crate::record::AttributesView;
use crate::record::EventView;
use crate::record::WasmAttributes;
use crate::record::WasmEvent;
use crate::record::WasmMetadata;
use crate::remap::effective_name;
use crate::remap::effective_name_and_target;
use crate::remap::effective_target;
use crate::subscriber::SENTINEL_HANDLE;

verus! {

/// Mathematical model of one retained span.
#[verifier::ext_equal]
pub struct RecordedSpanView {
    pub handle: u64,
    pub name: Seq<char>,
    pub target: Seq<char>,
    pub level: WasmLevel,
    pub values: FieldsView,
    pub closed: bool,
}

/// One span as the reference consumer retains it: the handle it handed out,
/// the name and target it reports (after reserved-key remapping), the
/// severity, and every field value recorded so far.
///
/// `closed` says whether the span has been exited and not re-entered since.
/// A span starts open at creation — span creation and field population may
/// happen in two steps, so fields are accepted before the first enter — and
/// one logical span may be entered and exited repeatedly across suspensions,
/// each enter reopening it. Only while it is closed are further `record`
/// calls on its handle ignored.
#[derive(Debug)]
pub struct RecordedSpan {
    pub handle: u64,
    pub name: String,
    pub target: String,
    pub level: WasmLevel,
    pub values: WasmValues,
    pub closed: bool,
}

impl View for RecordedSpan {
    type V = RecordedSpanView;

    open spec fn view(&self) -> RecordedSpanView {
        RecordedSpanView {
            handle: self.handle,
            name: self.name@,
            target: self.target@,
            level: self.level,
            values: self.values@,
            closed: self.closed,
        }
    }
}

/// Mathematical model of the reference consumer's state.
#[verifier::ext_equal]
pub struct ConsumerView {
    pub min_level: WasmLevel,
    pub next_handle: u64,
    pub spans: Seq<RecordedSpanView>,
    pub events: Seq<EventView>,
    pub entered: Seq<u64>,
    pub exited: Seq<u64>,
}

impl ConsumerView {
    /// The filter: spans and events are observed at or above `min_level`.
    pub open spec fn enabled(self, metadata: crate::record::MetadataView) -> bool {
        metadata.level.rank() >= self.min_level.rank()
    }

    /// Well-formedness: handle 1 is the first ever handed out, so the
    /// sentinel 0 never names a recorded span, and handles are handed out in
    /// strictly increasing order, so no two recorded spans share one.
    pub open spec fn wf(self) -> bool {
        &&& self.next_handle >= 1
        &&& forall|i: int|
            0 <= i < self.spans.len() ==> 1 <= (#[trigger] self.spans[i].handle)
                < self.next_handle
        &&& forall|i: int, j: int|
            0 <= i < j < self.spans.len() ==> (#[trigger] self.spans[i].handle) < (
            #[trigger] self.spans[j].handle)
    }

    /// What `new_span` does: a span whose metadata the filter rejects, or
    /// that arrives once the handle space is exhausted, is dropped and
    /// answered with the sentinel handle; any other span is retained under a
    /// fresh handle, with the reserved-key remapping applied to its name and
    /// target.
    pub open spec fn new_span_outcome(self, attrs: AttributesView) -> (ConsumerView, u64) {
        if !self.enabled(attrs.metadata) || self.next_handle == u64::MAX {
            (self, SENTINEL_HANDLE)
        } else {
            (
                ConsumerView {
                    next_handle: (self.next_handle + 1) as u64,
                    spans: self.spans.push(
                        RecordedSpanView {
                            handle: self.next_handle,
                            name: effective_name(attrs.metadata, attrs.values),
                            target: effective_target(attrs.metadata, attrs.values),
                            level: attrs.metadata.level,
                            values: attrs.values,
                            closed: false,
                        },
                    ),
                    ..self
                },
                self.next_handle,
            )
        }
    }

    /// The spans with the one owning `span`, if any, marked open or closed;
    /// with no owner, the spans unchanged.
    pub open spec fn with_openness(self, span: u64, closed: bool) -> Seq<RecordedSpanView> {
        if exists|i: int| 0 <= i < self.spans.len() && (#[trigger] self.spans[i].handle) == span {
            let i = choose|i: int|
                0 <= i < self.spans.len() && (#[trigger] self.spans[i].handle) == span;
            self.spans.update(i, RecordedSpanView { closed, ..self.spans[i] })
        } else {
            self.spans
        }
    }

    /// What `record` does: the fields are appended to the one span that owns
    /// the handle, unless that span has been exited and not re-entered
    /// since — recording on such a handle is a harmless no-op, as is a
    /// sentinel or unknown handle.
    pub open spec fn record_outcome(self, span: u64, values: FieldsView) -> ConsumerView {
        if exists|i: int| 0 <= i < self.spans.len() && (#[trigger] self.spans[i].handle) == span {
            let i = choose|i: int|
                0 <= i < self.spans.len() && (#[trigger] self.spans[i].handle) == span;
            if self.spans[i].closed {
                self
            } else {
                ConsumerView {
                    spans: self.spans.update(
                        i,
                        RecordedSpanView {
                            values: self.spans[i].values + values,
                            ..self.spans[i]
                        },
                    ),
                    ..self
                }
            }
        } else {
            self
        }
    }

    /// What `event` does: an event is retained if and only if the filter
    /// accepts its metadata.
    pub open spec fn event_outcome(self, event: EventView) -> ConsumerView {
        if self.enabled(event.metadata) {
            ConsumerView { events: self.events.push(event), ..self }
        } else {
            self
        }
    }

    /// What `enter` does: the handle joins the enter log and the span that
    /// owns it, if any, is (re)opened, so that `record` accepts its handle
    /// again. The sentinel is silently ignored.
    pub open spec fn enter_outcome(self, span: u64) -> ConsumerView {
        if span != SENTINEL_HANDLE {
            ConsumerView {
                entered: self.entered.push(span),
                spans: self.with_openness(span, false),
                ..self
            }
        } else {
            self
        }
    }

    /// What `exit` does: the handle joins the exit log and the span that
    /// owns it, if any, is closed until a further enter, so that `record`
    /// on its handle becomes a no-op. The sentinel is silently ignored.
    pub open spec fn exit_outcome(self, span: u64) -> ConsumerView {
        if span != SENTINEL_HANDLE {
            ConsumerView {
                exited: self.exited.push(span),
                spans: self.with_openness(span, true),
                ..self
            }
        } else {
            self
        }
    }
}

/// The reference consumer's state: the filter threshold, the next fresh
/// handle, and everything retained so far.
#[derive(Debug)]
pub struct ReferenceConsumer {
    min_level: WasmLevel,
    next_handle: u64,
    spans: Vec<RecordedSpan>,
    events: Vec<WasmEvent>,
    entered: Vec<u64>,
    exited: Vec<u64>,
}

impl View for ReferenceConsumer {
    type V = ConsumerView;

    closed spec fn view(&self) -> ConsumerView {
        ConsumerView {
            min_level: self.min_level,
            next_handle: self.next_handle,
            spans: Seq::new(self.spans@.len(), |i: int| self.spans@[i]@),
            events: Seq::new(self.events@.len(), |i: int| self.events@[i]@),
            entered: self.entered@,
            exited: self.exited@,
        }
    }
}

/// A mutable borrow of the field set stored at position `i`.
fn values_at_mut(spans: &mut Vec<RecordedSpan>, i: usize) -> (v: &mut WasmValues)
    requires
        i < old(spans).len(),
    ensures
        *v == old(spans)@[i as int].values,
        final(spans)@ == old(spans)@.update(
            i as int,
            (RecordedSpan { values: *final(v), ..old(spans)@[i as int] }),
        ),
{
    &mut spans[i].values
}

/// Mark the span stored at position `i` open or closed.
fn set_closed_at(spans: &mut Vec<RecordedSpan>, i: usize, closed: bool)
    requires
        i < old(spans).len(),
    ensures
        final(spans)@ == old(spans)@.update(
            i as int,
            (RecordedSpan { closed, ..old(spans)@[i as int] }),
        ),
{
    let sp = &mut spans[i];
    sp.closed = closed;
}

/// In a well-formed consumer, handles are strictly increasing, so the
/// position that owns a handle is the one any search finds: the chosen
/// witness of "some span owns `span`" is exactly `i`.
proof fn lemma_owner_index_is_chosen(c: ConsumerView, span: u64, i: int)
    requires
        c.wf(),
        0 <= i < c.spans.len(),
        c.spans[i].handle == span,
    ensures
        exists|j: int| 0 <= j < c.spans.len() && (#[trigger] c.spans[j].handle) == span,
        (choose|j: int| 0 <= j < c.spans.len() && (#[trigger] c.spans[j].handle) == span) == i,
{
    assert(0 <= i < c.spans.len() && c.spans[i].handle == span);
    let j = choose|j: int| 0 <= j < c.spans.len() && (#[trigger] c.spans[j].handle) == span;
    if j < i {
        assert(c.spans[j].handle < c.spans[i].handle);
    }
    if j > i {
        assert(c.spans[i].handle < c.spans[j].handle);
    }
}

impl ReferenceConsumer {
    /// A consumer that observes everything at or above `min_level` and has
    /// retained nothing yet.
    pub fn new(min_level: WasmLevel) -> (r: ReferenceConsumer)
        ensures
            r@.min_level == min_level,
            r@.next_handle == 1,
            r@.spans =~= Seq::<RecordedSpanView>::empty(),
            r@.events =~= Seq::<EventView>::empty(),
            r@.entered =~= Seq::<u64>::empty(),
            r@.exited =~= Seq::<u64>::empty(),
            r@.wf(),
    {
        ReferenceConsumer {
            min_level,
            next_handle: 1,
            spans: Vec::new(),
            events: Vec::new(),
            entered: Vec::new(),
            exited: Vec::new(),
        }
    }

    /// The fast filter: whether spans and events of this kind are observed.
    /// Reads nothing but the metadata and the threshold, so asking never has
    /// a side effect and the answer never changes for the same metadata.
    pub fn enabled(&self, metadata: &WasmMetadata) -> (r: bool)
        ensures
            r == self@.enabled(metadata@),
    {
        metadata.level.at_least(self.min_level)
    }

    /// Register a new span instance. Never fails the caller: a dropped span
    /// is answered with the sentinel handle, which every later operation
    /// silently ignores.
    pub fn new_span(&mut self, attrs: WasmAttributes) -> (handle: u64)
        requires
            old(self)@.wf(),
        ensures
            final(self)@ == old(self)@.new_span_outcome(attrs@).0,
            handle == old(self)@.new_span_outcome(attrs@).1,
            final(self)@.wf(),
    {
        let enabled = self.enabled(&attrs.metadata);
        if !enabled || self.next_handle == u64::MAX {
            return SENTINEL_HANDLE;
        }
        let handle = self.next_handle;
        self.next_handle = self.next_handle + 1;
        let (name, target) = effective_name_and_target(&attrs.metadata, &attrs.values);
        let level = attrs.metadata.level;
        self.spans.push(
            RecordedSpan { handle, name, target, level, values: attrs.values, closed: false },
        );
        proof {
            assert(self@ =~= old(self)@.new_span_outcome(attrs@).0);
        }
        handle
    }

    /// The position of the span that owns `span`, if the consumer retains
    /// one.
    fn find_index(&self, span: u64) -> (r: Option<usize>)
        ensures
            match r {
                Some(i) => (i as int) < self@.spans.len() && self@.spans[i as int].handle
                    == span,
                None => forall|k: int|
                    0 <= k < self@.spans.len() ==> (#[trigger] self@.spans[k].handle) != span,
            },
    {
        let n = self.spans.len();
        let mut i: usize = 0;
        while i < n
            invariant
                n == self@.spans.len(),
                i <= n,
                forall|k: int| 0 <= k < i ==> (#[trigger] self@.spans[k].handle) != span,
            decreases n - i,
        {
            if self.spans[i].handle == span {
                return Some(i);
            }
            i = i + 1;
        }
        None
    }

    /// Attach additional fields to the span that owns `span`, preserving
    /// insertion order. A sentinel or unknown handle is a harmless no-op,
    /// and so is the handle of a span that has been exited and not
    /// re-entered since: only an open span accepts fields. A span is open
    /// from its creation — span creation and field population may happen in
    /// two steps, before any enter — until an `exit`, and again after every
    /// further `enter`.
    pub fn record(&mut self, span: u64, values: WasmValues)
        requires
            old(self)@.wf(),
        ensures
            final(self)@ == old(self)@.record_outcome(span, values@),
            final(self)@.wf(),
    {
        match self.find_index(span) {
            Some(i) => {
                proof {
                    lemma_owner_index_is_chosen(old(self)@, span, i as int);
                }
                if self.spans[i].closed {
                    proof {
                        assert(self@ =~= old(self)@.record_outcome(span, values@));
                    }
                } else {
                    let vs = values_at_mut(&mut self.spans, i);
                    vs.append(values);
                    proof {
                        assert(self@ =~= old(self)@.record_outcome(span, values@));
                        assert forall|k: int|
                            0 <= k < self@.spans.len() implies (#[trigger] self@.spans[k].handle)
                            == old(self)@.spans[k].handle by {}
                    }
                }
            },
            None => {
                proof {
                    assert(self@ =~= old(self)@.record_outcome(span, values@));
                }
            },
        }
    }

    /// Report a point-in-time event: retained exactly when the filter
    /// accepts its metadata, independent of any span handle.
    pub fn event(&mut self, event: WasmEvent)
        ensures
            final(self)@ == old(self)@.event_outcome(event@),
    {
        let enabled = self.enabled(&event.metadata);
        if enabled {
            self.events.push(event);
            proof {
                assert(self@ =~= old(self)@.event_outcome(event@));
            }
        }
    }

    /// Mark that an execution context entered the span `span`, reopening it
    /// for `record`. The sentinel handle is silently ignored.
    pub fn enter(&mut self, span: u64)
        requires
            old(self)@.wf(),
        ensures
            final(self)@ == old(self)@.enter_outcome(span),
            final(self)@.wf(),
    {
        if span == SENTINEL_HANDLE {
            return ;
        }
        match self.find_index(span) {
            Some(i) => {
                proof {
                    lemma_owner_index_is_chosen(old(self)@, span, i as int);
                }
                set_closed_at(&mut self.spans, i, false);
            },
            None => {},
        }
        self.entered.push(span);
        proof {
            assert(self@ =~= old(self)@.enter_outcome(span));
            assert forall|k: int|
                0 <= k < self@.spans.len() implies (#[trigger] self@.spans[k].handle) == old(
                self,
            )@.spans[k].handle by {}
        }
    }

    /// Mark that an execution context exited the span `span`, closing it
    /// against further `record` calls until it is entered again. The
    /// sentinel handle is silently ignored.
    pub fn exit(&mut self, span: u64)
        requires
            old(self)@.wf(),
        ensures
            final(self)@ == old(self)@.exit_outcome(span),
            final(self)@.wf(),
    {
        if span == SENTINEL_HANDLE {
            return ;
        }
        match self.find_index(span) {
            Some(i) => {
                proof {
                    lemma_owner_index_is_chosen(old(self)@, span, i as int);
                }
                set_closed_at(&mut self.spans, i, true);
            },
            None => {},
        }
        self.exited.push(span);
        proof {
            assert(self@ =~= old(self)@.exit_outcome(span));
            assert forall|k: int|
                0 <= k < self@.spans.len() implies (#[trigger] self@.spans[k].handle) == old(
                self,
            )@.spans[k].handle by {}
        }
    }

    /// Every span retained so far, in creation order.
    pub fn spans(&self) -> (r: &Vec<RecordedSpan>)
        ensures
            r@.len() == self@.spans.len(),
            forall|i: int| 0 <= i < r@.len() ==> (#[trigger] r@[i]@) == self@.spans[i],
    {
        &self.spans
    }

    /// Every event retained so far, in arrival order.
    pub fn events(&self) -> (r: &Vec<WasmEvent>)
        ensures
            r@.len() == self@.events.len(),
            forall|i: int| 0 <= i < r@.len() ==> (#[trigger] r@[i]@) == self@.events[i],
    {
        &self.events
    }

    /// Every handle passed to `enter` so far, sentinel calls excluded.
    pub fn entered_log(&self) -> (r: &Vec<u64>)
        ensures
            r@ == self@.entered,
    {
        &self.entered
    }

    /// Every handle passed to `exit` so far, sentinel calls excluded.
    pub fn exited_log(&self) -> (r: &Vec<u64>)
        ensures
            r@ == self@.exited,
    {
        &self.exited
    }

    /// The filter threshold this consumer was built with.
    pub fn min_level(&self) -> (r: WasmLevel)
        ensures
            r == self@.min_level,
    {
        self.min_level
    }
}

/// A negative `enabled` answer is never contradicted later: a `new_span`
/// carrying metadata the filter rejects leaves the consumer's records
/// exactly as they were and is answered with the sentinel handle, so the
/// dropped span can never be observed.
pub proof fn lemma_disabled_metadata_never_recorded(c: ConsumerView, attrs: AttributesView)
    requires
        !c.enabled(attrs.metadata),
    ensures
        c.new_span_outcome(attrs).0 == c,
        c.new_span_outcome(attrs).1 == SENTINEL_HANDLE,
{
}

/// Recording on an already-exited handle is a harmless no-op: once a span
/// has been exited and not re-entered since, a `record` on its handle
/// leaves the consumer exactly as it was.
pub proof fn lemma_record_after_exit_is_noop(c: ConsumerView, span: u64, values: FieldsView)
    requires
        c.wf(),
    ensures
        c.exit_outcome(span).record_outcome(span, values) == c.exit_outcome(span),
{
    let c2 = c.exit_outcome(span);
    if span == SENTINEL_HANDLE {
        assert forall|j: int|
            0 <= j < c2.spans.len() implies (#[trigger] c2.spans[j].handle) != span by {}
    } else {
        if exists|i: int| 0 <= i < c.spans.len() && (#[trigger] c.spans[i].handle) == span {
            let i = choose|i: int|
                0 <= i < c.spans.len() && (#[trigger] c.spans[i].handle) == span;
            assert(c2.spans == c.spans.update(
                i,
                RecordedSpanView { closed: true, ..c.spans[i] },
            ));
            assert forall|k: int|
                0 <= k < c2.spans.len() implies (#[trigger] c2.spans[k].handle)
                == c.spans[k].handle by {}
            assert(c2.wf());
            assert(c2.spans[i].handle == span);
            lemma_owner_index_is_chosen(c2, span, i);
            assert(c2.spans[i].closed);
        } else {
            assert(c2.spans == c.spans);
        }
    }
}

/// Span handles are globally unambiguous for one consumer: no two retained
/// spans share a handle, and none carries the sentinel.
pub proof fn lemma_recorded_handles_unique(c: ConsumerView, i: int, j: int)
    requires
        c.wf(),
        0 <= i < c.spans.len(),
        0 <= j < c.spans.len(),
        i != j,
    ensures
        c.spans[i].handle != c.spans[j].handle,
        c.spans[i].handle != SENTINEL_HANDLE,
{
}

} // verus!
