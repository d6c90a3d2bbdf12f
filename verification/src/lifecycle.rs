//! The span lifecycle operations: the guest-facing side of the bridge.
//!
//! A [`SpanTracker`] records, per sequential execution context, which spans
//! are currently open. Exiting always closes the most recently opened span,
//! so the enter/exit pairs a single sequential caller emits are strictly
//! nested, whatever depth they reach. [`run_within_span`] is the primary
//! entry point: it opens a span, runs the caller's body, and closes the span
//! again on the way out; with no subscriber installed it runs the body and
//! does nothing else.

use vstd::prelude::*;

use crate::fields::WasmValues;
use crate::level::WasmLevel;
use crate::record::WasmAttributes;
use crate::record::WasmMetadata;
use crate::subscriber::SENTINEL_HANDLE;
use crate::subscriber::TracingSubscriber;

verus! {

/// The order in which handles leave a stack of open spans when every one of
/// them is exited: the top first, then the rest.
pub open spec fn lifo_exit_order(stack: Seq<u64>) -> Seq<u64>
    decreases stack.len(),
{
    if stack.len() == 0 {
        Seq::empty()
    } else {
        seq![stack.last()] + lifo_exit_order(stack.drop_last())
    }
}

/// For any sequence of spans entered by a single sequential caller, the
/// sequence of handles passed to `exit` while unwinding them all is the
/// exact reverse of the sequence passed to `enter`, at any depth.
pub proof fn lemma_exit_order_reverses_enter_order(entered: Seq<u64>)
    ensures
        lifo_exit_order(entered) == entered.reverse(),
    decreases entered.len(),
{
    if entered.len() == 0 {
        assert(lifo_exit_order(entered) =~= entered.reverse());
    } else {
        lemma_exit_order_reverses_enter_order(entered.drop_last());
        assert(lifo_exit_order(entered) =~= entered.reverse());
    }
}

/// Per-context bookkeeping of open spans.
///
/// The stack holds the handles of the spans the current execution context
/// has entered and not yet exited, most recent on top. The two ghost logs
/// record every handle ever passed to `enter` and to `exit`, in order; they
/// exist only in proofs and cost nothing at run time. A handle may appear
/// more than once: one logical span may be entered and exited repeatedly
/// across suspensions.
pub struct SpanTracker {
    stack: Vec<u64>,
    entered: Ghost<Seq<u64>>,
    exited: Ghost<Seq<u64>>,
}

impl SpanTracker {
    /// The handles of the currently open spans, bottom to top.
    pub closed spec fn spec_stack(self) -> Seq<u64> {
        self.stack@
    }

    /// Every handle passed to `enter` so far, in order.
    pub closed spec fn spec_entered(self) -> Seq<u64> {
        self.entered@
    }

    /// Every handle passed to `exit` so far, in order.
    pub closed spec fn spec_exited(self) -> Seq<u64> {
        self.exited@
    }

    /// A fresh context: no span open, nothing entered or exited yet.
    pub fn new() -> (r: SpanTracker)
        ensures
            r.spec_stack() =~= Seq::<u64>::empty(),
            r.spec_entered() =~= Seq::<u64>::empty(),
            r.spec_exited() =~= Seq::<u64>::empty(),
    {
        SpanTracker { stack: Vec::new(), entered: Ghost(Seq::empty()), exited: Ghost(Seq::empty()) }
    }

    /// The number of currently open spans.
    pub fn depth(&self) -> (n: usize)
        ensures
            n == self.spec_stack().len(),
    {
        self.stack.len()
    }

    /// Note that the context has entered the span `handle`: it becomes the
    /// most recently opened span.
    fn note_enter(&mut self, handle: u64)
        ensures
            final(self).spec_stack() == old(self).spec_stack().push(handle),
            final(self).spec_entered() == old(self).spec_entered().push(handle),
            final(self).spec_exited() == old(self).spec_exited(),
    {
        self.stack.push(handle);
        proof {
            self.entered@ = self.entered@.push(handle);
        }
    }

    /// Note that the context has exited the most recently opened span, and
    /// say which one that was. With no span open there is nothing to exit.
    fn note_exit(&mut self) -> (handle: Option<u64>)
        ensures
            final(self).spec_entered() == old(self).spec_entered(),
            old(self).spec_stack().len() == 0 ==> {
                &&& handle.is_none()
                &&& final(self).spec_stack() == old(self).spec_stack()
                &&& final(self).spec_exited() == old(self).spec_exited()
            },
            old(self).spec_stack().len() > 0 ==> {
                &&& handle == Some(old(self).spec_stack().last())
                &&& final(self).spec_stack() == old(self).spec_stack().drop_last()
                &&& final(self).spec_exited() == old(self).spec_exited().push(
                    old(self).spec_stack().last(),
                )
            },
    {
        match self.stack.pop() {
            Some(h) => {
                proof {
                    self.exited@ = self.exited@.push(h);
                    assert(old(self).spec_stack().subrange(
                        0,
                        old(self).spec_stack().len() - 1,
                    ) =~= old(self).spec_stack().drop_last());
                }
                Some(h)
            },
            None => None,
        }
    }
}

/// Open a span described by `attrs` and enter it: the lower-level building
/// block of `run_within_span`, for callers that scope the matching exit
/// themselves through `exit_span`.
///
/// With a subscriber installed, the span is created through it, entered, and
/// pushed onto the tracker; the handle the subscriber chose is returned.
/// With none installed the call is a no-op on the tracker and returns the
/// sentinel handle.
pub fn enter_span<S: TracingSubscriber>(
    subscriber: Option<&S>,
    tracker: &mut SpanTracker,
    attrs: WasmAttributes,
) -> (handle: u64)
    ensures
        final(tracker).spec_exited() == old(tracker).spec_exited(),
        subscriber.is_some() ==> {
            &&& final(tracker).spec_stack() == old(tracker).spec_stack().push(handle)
            &&& final(tracker).spec_entered() == old(tracker).spec_entered().push(handle)
        },
        subscriber.is_none() ==> {
            &&& *final(tracker) == *old(tracker)
            &&& handle == SENTINEL_HANDLE
        },
{
    match subscriber {
        Some(s) => {
            let handle = s.new_span(attrs);
            tracker.note_enter(handle);
            s.enter(handle);
            handle
        },
        None => SENTINEL_HANDLE,
    }
}

/// Exit the most recently opened span, if any: the release half of
/// `enter_span`. Says which span was exited; with no span open, a no-op.
pub fn exit_span<S: TracingSubscriber>(subscriber: Option<&S>, tracker: &mut SpanTracker) -> (handle:
    Option<u64>)
    ensures
        final(tracker).spec_entered() == old(tracker).spec_entered(),
        old(tracker).spec_stack().len() == 0 ==> {
            &&& handle.is_none()
            &&& final(tracker).spec_stack() == old(tracker).spec_stack()
            &&& final(tracker).spec_exited() == old(tracker).spec_exited()
        },
        old(tracker).spec_stack().len() > 0 ==> {
            &&& handle == Some(old(tracker).spec_stack().last())
            &&& final(tracker).spec_stack() == old(tracker).spec_stack().drop_last()
            &&& final(tracker).spec_exited() == old(tracker).spec_exited().push(
                old(tracker).spec_stack().last(),
            )
        },
{
    let popped = tracker.note_exit();
    match popped {
        Some(h) => {
            match subscriber {
                Some(s) => s.exit(h),
                None => {},
            }
            Some(h)
        },
        None => None,
    }
}

/// Exit every span the context still has open, most recent first. The
/// handles are passed to `exit` in [`lifo_exit_order`] — by
/// [`lemma_exit_order_reverses_enter_order`], the exact reverse of the order
/// in which they were entered.
pub fn exit_all<S: TracingSubscriber>(subscriber: Option<&S>, tracker: &mut SpanTracker)
    ensures
        final(tracker).spec_stack().len() == 0,
        final(tracker).spec_entered() == old(tracker).spec_entered(),
        final(tracker).spec_exited() == old(tracker).spec_exited() + lifo_exit_order(
            old(tracker).spec_stack(),
        ),
        final(tracker).spec_exited() == old(tracker).spec_exited() + old(
            tracker,
        ).spec_stack().reverse(),
{
    loop
        invariant
            tracker.spec_entered() == old(tracker).spec_entered(),
            tracker.spec_exited() + lifo_exit_order(tracker.spec_stack()) == old(
                tracker,
            ).spec_exited() + lifo_exit_order(old(tracker).spec_stack()),
        ensures
            tracker.spec_stack().len() == 0,
        decreases tracker.spec_stack().len(),
    {
        let n = tracker.depth();
        if n == 0 {
            break ;
        }
        let ghost before_stack = tracker.spec_stack();
        let ghost before_exited = tracker.spec_exited();
        let _ = exit_span(subscriber, tracker);
        proof {
            assert(lifo_exit_order(before_stack) == seq![before_stack.last()] + lifo_exit_order(
                before_stack.drop_last(),
            ));
            assert(before_exited.push(before_stack.last()) + lifo_exit_order(
                before_stack.drop_last(),
            ) =~= before_exited + lifo_exit_order(before_stack));
        }
    }
    proof {
        assert(tracker.spec_exited() + lifo_exit_order(tracker.spec_stack())
            =~= tracker.spec_exited());
        lemma_exit_order_reverses_enter_order(old(tracker).spec_stack());
    }
}

/// Run `body` within the span described by `attrs`, and guarantee the
/// matching exit on the way out.
///
/// Returns exactly what `body` returns: whatever the subscriber does or
/// fails to do, and whether one is installed at all, only the trace data
/// differs — never the program result. With a subscriber installed, one
/// span is entered before the body runs and that same span is exited after
/// it; with none, the tracker is untouched and nothing is observed anywhere.
pub fn run_within_span<S: TracingSubscriber, F: FnOnce() -> R, R>(
    subscriber: Option<&S>,
    tracker: &mut SpanTracker,
    attrs: WasmAttributes,
    body: F,
) -> (r: R)
    requires
        call_requires(body, ()),
    ensures
        call_ensures(body, (), r),
        final(tracker).spec_stack() == old(tracker).spec_stack(),
        subscriber.is_none() ==> *final(tracker) == *old(tracker),
        subscriber.is_some() ==> exists|h: u64|
            {
                &&& final(tracker).spec_entered() == old(tracker).spec_entered().push(h)
                &&& final(tracker).spec_exited() == old(tracker).spec_exited().push(h)
            },
{
    match subscriber {
        Some(s) => {
            let handle = enter_span(subscriber, tracker, attrs);
            let r = body();
            let _ = exit_span(subscriber, tracker);
            proof {
                assert(old(tracker).spec_stack().push(handle).drop_last() =~= old(
                    tracker,
                ).spec_stack());
            }
            r
        },
        None => body(),
    }
}

/// Run `body` within a span described only by a level, a name and a target,
/// with no initial fields: the descriptor form for call sites that have no
/// field set to attach. Behaves exactly as [`run_within_span`] on the
/// record built from the descriptor.
pub fn run_within_named_span<S: TracingSubscriber, F: FnOnce() -> R, R>(
    subscriber: Option<&S>,
    tracker: &mut SpanTracker,
    level: WasmLevel,
    name: String,
    target: String,
    body: F,
) -> (r: R)
    requires
        call_requires(body, ()),
    ensures
        call_ensures(body, (), r),
        final(tracker).spec_stack() == old(tracker).spec_stack(),
        subscriber.is_none() ==> *final(tracker) == *old(tracker),
        subscriber.is_some() ==> exists|h: u64|
            {
                &&& final(tracker).spec_entered() == old(tracker).spec_entered().push(h)
                &&& final(tracker).spec_exited() == old(tracker).spec_exited().push(h)
            },
{
    let attrs = WasmAttributes::new(WasmMetadata::new(name, target, level), WasmValues::new());
    run_within_span(subscriber, tracker, attrs, body)
}

} // verus!
