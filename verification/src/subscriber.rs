//! The capability a host implements to consume spans and events, and the
//! write-once registry slot through which the guest reaches it.

use vstd::prelude::*;

use crate::record::WasmAttributes;
use crate::record::WasmEvent;
use crate::record::WasmMetadata;
use crate::fields::WasmValues;

verus! {

/// The span handle a subscriber returns when it drops a span internally (for
/// example because `enabled` was false). Every later operation on this
/// handle is a harmless no-op; a subscriber never hands it out for a span it
/// actually registered.
pub const SENTINEL_HANDLE: u64 = 0;

/// The capability interface the host must implement to receive spans and
/// events from the guest. These six operations are the only ones the guest
/// may invoke on the host's tracing backend.
///
/// None of them returns an error: a host implementation that cannot process
/// a call must swallow the problem rather than propagate it, so that tracing
/// can never crash or redirect the control flow of traced code. The
/// installed instance is shared process-wide and must tolerate unsynchronized
/// concurrent calls from many execution contexts; that is a contract on the
/// host-provided instance, not something the guest can check, so no method
/// carries a promise the guest could rely on in a proof.
pub trait TracingSubscriber: Send + Sync {
    /// Fast filter: whether spans and events of this kind are worth building.
    /// Side-effect-free and callable any number of times.
    fn enabled(&self, metadata: &WasmMetadata) -> bool;

    /// Register a new span instance; always returns a usable handle, falling
    /// back to [`SENTINEL_HANDLE`] when the span is dropped internally.
    fn new_span(&self, attrs: WasmAttributes) -> u64;

    /// Attach additional fields to an existing span; a sentinel or unknown
    /// handle is a harmless no-op.
    fn record(&self, span: u64, values: WasmValues);

    /// Report a point-in-time event, independent of any span handle.
    fn event(&self, event: WasmEvent);

    /// Mark the beginning of the current execution's presence in a span.
    fn enter(&self, span: u64);

    /// Mark the end of the current execution's presence in a span.
    fn exit(&self, span: u64);
}

/// A subscriber that observes nothing: the degraded configuration in which
/// every bridge operation is an unconditional no-op while the traced code
/// still runs.
pub struct NoopSubscriber;

impl TracingSubscriber for NoopSubscriber {
    fn enabled(&self, _metadata: &WasmMetadata) -> bool {
        false
    }

    fn new_span(&self, _attrs: WasmAttributes) -> u64 {
        SENTINEL_HANDLE
    }

    fn record(&self, _span: u64, _values: WasmValues) {
    }

    fn event(&self, _event: WasmEvent) {
    }

    fn enter(&self, _span: u64) {
    }

    fn exit(&self, _span: u64) {
    }
}

/// What a write-once slot holds after an installation attempt: an occupied
/// slot keeps its occupant and the new instance is discarded; an empty slot
/// takes the new instance.
pub open spec fn install_outcome<S>(slot: Option<S>, instance: S) -> Option<S> {
    if slot.is_some() {
        slot
    } else {
        Some(instance)
    }
}

/// The process-wide slot holding at most one installed subscriber.
///
/// Its lifecycle: the slot starts empty, transitions to occupied at most
/// once, and never transitions back — there is no uninstall and no replace.
/// Installation is explicitly not last-write-wins: a live subscriber can
/// never be silently swapped out mid-process. All read access after
/// installation is through a shared reference to the single occupant.
pub struct SubscriberRegistry<S> {
    slot: Option<S>,
}

impl<S: TracingSubscriber> SubscriberRegistry<S> {
    /// The current occupant of the slot, if any.
    pub closed spec fn spec_slot(self) -> Option<S> {
        self.slot
    }

    /// An empty registry: no subscriber has been installed yet.
    pub fn new() -> (r: SubscriberRegistry<S>)
        ensures
            r.spec_slot().is_none(),
    {
        SubscriberRegistry { slot: None }
    }

    /// Attempt to place `instance` into the slot. If the slot is already
    /// occupied the call is a no-op — the new instance is discarded, not an
    /// error and not a replacement. Returns whether this call installed its
    /// instance.
    pub fn install(&mut self, instance: S) -> (installed: bool)
        ensures
            final(self).spec_slot() == install_outcome(old(self).spec_slot(), instance),
            installed == old(self).spec_slot().is_none(),
    {
        match self.slot {
            Some(_) => false,
            None => {
                self.slot = Some(instance);
                true
            },
        }
    }

    /// A reference to the installed subscriber, if any. Once the slot is
    /// occupied, every caller converges on the same single instance.
    pub fn current(&self) -> (r: Option<&S>)
        ensures
            match r {
                Some(s) => self.spec_slot() == Some(*s),
                None => self.spec_slot().is_none(),
            },
    {
        self.slot.as_ref()
    }
}

/// Installation is idempotent from the caller's perspective: after a first
/// successful installation, a second installation attempt leaves the slot
/// holding the first instance, whatever was offered — the second instance is
/// never reachable afterwards. More generally, an occupied slot is never
/// changed by a further attempt.
pub proof fn lemma_install_first_wins<S>(first: S, second: S, occupied: Option<S>)
    ensures
        install_outcome(install_outcome(Option::<S>::None, first), second) == Some(first),
        occupied.is_some() ==> install_outcome(occupied, second) == occupied,
{
}

} // verus!
