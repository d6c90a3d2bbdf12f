use sp_tracing::WasmLevel;
use sp_tracing::WasmMetadata;
use sp_tracing::WasmValue;
use sp_tracing::WasmValues;
use sp_tracing::remap::effective_name_and_target;
use sp_tracing::remap::wasm_name_key;
use sp_tracing::remap::wasm_target_key;
use sp_tracing::remap::wasm_trace_identifier;

#[test]
fn reserved_identifiers_are_stable() {
    assert_eq!(wasm_target_key(), "target");
    assert_eq!(wasm_name_key(), "name");
    assert_eq!(wasm_trace_identifier(), "wasm_tracing");
}

#[test]
fn sentinel_with_both_overrides_is_remapped() {
    let metadata = WasmMetadata::new(
        wasm_trace_identifier(),
        "generic".to_string(),
        WasmLevel::INFO,
    );
    let mut values = WasmValues::new();
    values.add(wasm_target_key(), WasmValue::Str("T".to_string()));
    values.add(wasm_name_key(), WasmValue::Str("N".to_string()));
    let (name, target) = effective_name_and_target(&metadata, &values);
    assert_eq!(name, "N");
    assert_eq!(target, "T");
}

#[test]
fn sentinel_without_overrides_falls_back_to_literals() {
    let metadata = WasmMetadata::new(
        wasm_trace_identifier(),
        "generic".to_string(),
        WasmLevel::INFO,
    );
    let mut values = WasmValues::new();
    values.add("unrelated".to_string(), WasmValue::U64(7));
    let (name, target) = effective_name_and_target(&metadata, &values);
    assert_eq!(name, "wasm_tracing");
    assert_eq!(target, "generic");
}

#[test]
fn ordinary_name_is_never_remapped() {
    let metadata = WasmMetadata::new(
        "plain_span".to_string(),
        "my_target".to_string(),
        WasmLevel::DEBUG,
    );
    let mut values = WasmValues::new();
    values.add(wasm_target_key(), WasmValue::Str("T".to_string()));
    values.add(wasm_name_key(), WasmValue::Str("N".to_string()));
    let (name, target) = effective_name_and_target(&metadata, &values);
    assert_eq!(name, "plain_span");
    assert_eq!(target, "my_target");
}

#[test]
fn latest_override_write_wins() {
    let metadata = WasmMetadata::new(
        wasm_trace_identifier(),
        "generic".to_string(),
        WasmLevel::INFO,
    );
    let mut values = WasmValues::new();
    values.add(wasm_name_key(), WasmValue::Str("first".to_string()));
    values.add(wasm_name_key(), WasmValue::Str("second".to_string()));
    let (name, _) = effective_name_and_target(&metadata, &values);
    assert_eq!(name, "second");
}

#[test]
fn non_string_override_entries_are_passed_over() {
    let metadata = WasmMetadata::new(
        wasm_trace_identifier(),
        "generic".to_string(),
        WasmLevel::INFO,
    );
    let mut values = WasmValues::new();
    values.add(wasm_name_key(), WasmValue::Str("real".to_string()));
    values.add(wasm_name_key(), WasmValue::U64(5));
    values.add_empty(wasm_target_key());
    let (name, target) = effective_name_and_target(&metadata, &values);
    assert_eq!(name, "real");
    assert_eq!(target, "generic");
}

#[test]
fn only_one_override_present_remaps_only_that_half() {
    let metadata = WasmMetadata::new(
        wasm_trace_identifier(),
        "generic".to_string(),
        WasmLevel::INFO,
    );
    let mut values = WasmValues::new();
    values.add(wasm_target_key(), WasmValue::Str("T".to_string()));
    let (name, target) = effective_name_and_target(&metadata, &values);
    assert_eq!(name, "wasm_tracing");
    assert_eq!(target, "T");
}
