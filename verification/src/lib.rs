//! Guest/host trace bridge.
//!
//! Code running inside a restricted sandbox (the guest) can emit structured
//! trace spans and events that a host process records. The guest cannot hold
//! references into host memory and may not even have a tracing backend
//! linked in, so everything that crosses the boundary is built from
//! primitive values: integers, strings and name/value pairs.
//!
//! The crate provides:
//! - [`WasmLevel`]: the ordered severity enumeration shared by both sides;
//! - the boundary value model ([`WasmValue`], [`WasmValues`]) and the
//!   records built from it ([`WasmMetadata`], [`WasmAttributes`],
//!   [`WasmEvent`]);
//! - the [`TracingSubscriber`] capability a host implements to consume spans
//!   and events, and the write-once [`SubscriberRegistry`] slot that holds
//!   the single installed instance;
//! - the span lifecycle operations ([`SpanTracker`], [`run_within_span`]),
//!   which emit strictly nested enter/exit pairs and degrade to a pure
//!   no-op when no subscriber is installed;
//! - the reserved-key remapping convention (see [`remap`]) that lets a
//!   generic span carry an overridden name and target in its fields;
//! - a verified [`ReferenceConsumer`] modelling a host that conforms to the
//!   subscriber contract.

pub mod consumer;
pub mod fields;
pub mod level;
pub mod lifecycle;
pub mod record;
pub mod remap;
pub mod subscriber;

pub use consumer::RecordedSpan;
pub use consumer::ReferenceConsumer;
pub use fields::WasmValue;
pub use fields::WasmValues;
pub use level::WasmLevel;
pub use lifecycle::SpanTracker;
pub use lifecycle::enter_span;
pub use lifecycle::exit_all;
pub use lifecycle::exit_span;
pub use lifecycle::run_within_named_span;
pub use lifecycle::run_within_span;
pub use record::WasmAttributes;
pub use record::WasmEvent;
pub use record::WasmMetadata;
pub use subscriber::NoopSubscriber;
pub use subscriber::SENTINEL_HANDLE;
pub use subscriber::SubscriberRegistry;
pub use subscriber::TracingSubscriber;
