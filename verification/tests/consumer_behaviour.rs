use sp_tracing::ReferenceConsumer;
use sp_tracing::WasmAttributes;
use sp_tracing::WasmEvent;
use sp_tracing::WasmLevel;
use sp_tracing::WasmMetadata;
use sp_tracing::WasmValue;
use sp_tracing::WasmValues;
use sp_tracing::SENTINEL_HANDLE;
use sp_tracing::remap::wasm_name_key;
use sp_tracing::remap::wasm_target_key;
use sp_tracing::remap::wasm_trace_identifier;

fn attrs(name: &str, target: &str, level: WasmLevel, values: WasmValues) -> WasmAttributes {
    WasmAttributes::new(WasmMetadata::new(name.to_string(), target.to_string(), level), values)
}

#[test]
fn disabled_metadata_yields_sentinel_and_records_nothing() {
    let mut consumer = ReferenceConsumer::new(WasmLevel::WARN);
    let metadata = WasmMetadata::new("quiet".to_string(), "t".to_string(), WasmLevel::INFO);
    assert!(!consumer.enabled(&metadata));
    let handle = consumer.new_span(WasmAttributes::new(metadata, WasmValues::new()));
    assert_eq!(handle, SENTINEL_HANDLE);
    assert!(consumer.spans().is_empty());
}

#[test]
fn enabled_metadata_is_recorded_under_fresh_handles() {
    let mut consumer = ReferenceConsumer::new(WasmLevel::DEBUG);
    let h1 = consumer.new_span(attrs("a", "t", WasmLevel::ERROR, WasmValues::new()));
    let h2 = consumer.new_span(attrs("b", "t", WasmLevel::DEBUG, WasmValues::new()));
    assert_eq!(h1, 1);
    assert_eq!(h2, 2);
    let spans = consumer.spans();
    assert_eq!(spans.len(), 2);
    assert_eq!(spans[0].name, "a");
    assert_eq!(spans[1].name, "b");
    assert_ne!(spans[0].handle, spans[1].handle);
}

#[test]
fn record_appends_fields_to_the_owning_span() {
    let mut consumer = ReferenceConsumer::new(WasmLevel::TRACE);
    let mut initial = WasmValues::new();
    initial.add_empty("later".to_string());
    let handle = consumer.new_span(attrs("s", "t", WasmLevel::INFO, initial));
    let mut update = WasmValues::new();
    update.add("later".to_string(), WasmValue::U64(9));
    consumer.record(handle, update);
    let spans = consumer.spans();
    assert_eq!(spans[0].values.len(), 2);
    assert_eq!(spans[0].values.get(0).0, "later");
    assert_eq!(spans[0].values.get(0).1, None);
    assert_eq!(spans[0].values.get(1).1, Some(WasmValue::U64(9)));
}

#[test]
fn record_on_sentinel_or_unknown_handle_is_a_noop() {
    let mut consumer = ReferenceConsumer::new(WasmLevel::TRACE);
    let handle = consumer.new_span(attrs("s", "t", WasmLevel::INFO, WasmValues::new()));
    let mut update = WasmValues::new();
    update.add("x".to_string(), WasmValue::Bool(true));
    consumer.record(SENTINEL_HANDLE, update);
    let mut update2 = WasmValues::new();
    update2.add("x".to_string(), WasmValue::Bool(true));
    consumer.record(handle + 100, update2);
    assert_eq!(consumer.spans()[0].values.len(), 0);
}

#[test]
fn record_after_exit_is_ignored() {
    let mut consumer = ReferenceConsumer::new(WasmLevel::TRACE);
    let handle = consumer.new_span(attrs("s", "t", WasmLevel::INFO, WasmValues::new()));
    consumer.enter(handle);
    consumer.exit(handle);
    let mut update = WasmValues::new();
    update.add("late".to_string(), WasmValue::Bool(true));
    consumer.record(handle, update);
    assert_eq!(consumer.spans()[0].values.len(), 0);
}

#[test]
fn reentering_reopens_the_span_for_record() {
    let mut consumer = ReferenceConsumer::new(WasmLevel::TRACE);
    let handle = consumer.new_span(attrs("s", "t", WasmLevel::INFO, WasmValues::new()));
    consumer.enter(handle);
    consumer.exit(handle);
    consumer.enter(handle);
    let mut update = WasmValues::new();
    update.add("resumed".to_string(), WasmValue::U64(1));
    consumer.record(handle, update);
    assert_eq!(consumer.spans()[0].values.len(), 1);
    assert_eq!(consumer.spans()[0].values.get(0).0, "resumed");
}

#[test]
fn record_before_first_enter_is_accepted() {
    let mut consumer = ReferenceConsumer::new(WasmLevel::TRACE);
    let handle = consumer.new_span(attrs("s", "t", WasmLevel::INFO, WasmValues::new()));
    let mut update = WasmValues::new();
    update.add("early".to_string(), WasmValue::I64(-1));
    consumer.record(handle, update);
    assert_eq!(consumer.spans()[0].values.len(), 1);
}

#[test]
fn events_respect_the_filter() {
    let mut consumer = ReferenceConsumer::new(WasmLevel::WARN);
    let dropped = WasmEvent::new(
        WasmMetadata::new("e1".to_string(), "t".to_string(), WasmLevel::INFO),
        WasmValues::new(),
    );
    let kept = WasmEvent::new(
        WasmMetadata::new("e2".to_string(), "t".to_string(), WasmLevel::ERROR),
        WasmValues::new(),
    );
    consumer.event(dropped);
    consumer.event(kept);
    let events = consumer.events();
    assert_eq!(events.len(), 1);
    assert_eq!(events[0].metadata.name, "e2");
}

#[test]
fn sentinel_enter_and_exit_are_ignored() {
    let mut consumer = ReferenceConsumer::new(WasmLevel::TRACE);
    consumer.enter(SENTINEL_HANDLE);
    consumer.exit(SENTINEL_HANDLE);
    consumer.enter(3);
    consumer.exit(3);
    assert_eq!(consumer.entered_log().as_slice(), &[3]);
    assert_eq!(consumer.exited_log().as_slice(), &[3]);
}

#[test]
fn consumer_applies_reserved_key_remapping() {
    let mut consumer = ReferenceConsumer::new(WasmLevel::TRACE);
    let mut values = WasmValues::new();
    values.add(wasm_target_key(), WasmValue::Str("T".to_string()));
    values.add(wasm_name_key(), WasmValue::Str("N".to_string()));
    let metadata = WasmMetadata::new(wasm_trace_identifier(), "generic".to_string(), WasmLevel::INFO);
    consumer.new_span(WasmAttributes::new(metadata, values));
    let spans = consumer.spans();
    assert_eq!(spans[0].name, "N");
    assert_eq!(spans[0].target, "T");
}

#[test]
fn consumer_falls_back_without_override_fields() {
    let mut consumer = ReferenceConsumer::new(WasmLevel::TRACE);
    let metadata = WasmMetadata::new(wasm_trace_identifier(), "generic".to_string(), WasmLevel::INFO);
    consumer.new_span(WasmAttributes::new(metadata, WasmValues::new()));
    let spans = consumer.spans();
    assert_eq!(spans[0].name, "wasm_tracing");
    assert_eq!(spans[0].target, "generic");
}

#[test]
fn metadata_builders_fill_optional_fields() {
    let metadata = WasmMetadata::new("n".to_string(), "t".to_string(), WasmLevel::INFO)
        .with_location("lib.rs".to_string(), 12)
        .with_module("crate::inner".to_string())
        .with_field_names(vec!["a".to_string(), "b".to_string()]);
    assert_eq!(metadata.file.as_deref(), Some("lib.rs"));
    assert_eq!(metadata.line, Some(12));
    assert_eq!(metadata.module.as_deref(), Some("crate::inner"));
    assert_eq!(metadata.field_names.len(), 2);
    assert_eq!(metadata.level, WasmLevel::INFO);
}
