use sp_tracing::SubscriberRegistry;
use sp_tracing::TracingSubscriber;
use sp_tracing::WasmAttributes;
use sp_tracing::WasmEvent;
use sp_tracing::WasmMetadata;
use sp_tracing::WasmValues;
use sp_tracing::SENTINEL_HANDLE;

struct TagSubscriber {
    id: u64,
}

impl TracingSubscriber for TagSubscriber {
    fn enabled(&self, _metadata: &WasmMetadata) -> bool {
        false
    }

    fn new_span(&self, _attrs: WasmAttributes) -> u64 {
        SENTINEL_HANDLE
    }

    fn record(&self, _span: u64, _values: WasmValues) {}

    fn event(&self, _event: WasmEvent) {}

    fn enter(&self, _span: u64) {}

    fn exit(&self, _span: u64) {}
}

#[test]
fn registry_starts_empty() {
    let registry: SubscriberRegistry<TagSubscriber> = SubscriberRegistry::new();
    assert!(registry.current().is_none());
}

#[test]
fn first_install_wins_and_second_is_discarded() {
    let mut registry: SubscriberRegistry<TagSubscriber> = SubscriberRegistry::new();
    let first_installed = registry.install(TagSubscriber { id: 1 });
    let second_installed = registry.install(TagSubscriber { id: 2 });
    assert!(first_installed);
    assert!(!second_installed);
    let current = registry.current().expect("a subscriber is installed");
    assert_eq!(current.id, 1);
}

#[test]
fn occupant_survives_any_number_of_later_installs() {
    let mut registry: SubscriberRegistry<TagSubscriber> = SubscriberRegistry::new();
    assert!(registry.install(TagSubscriber { id: 7 }));
    for id in 8..20 {
        assert!(!registry.install(TagSubscriber { id }));
        assert_eq!(registry.current().expect("still installed").id, 7);
    }
}
