use etwkit::error::EtwError;
use etwkit::filter::EventFilter;
use etwkit::known_providers;
use etwkit::provider::{EnableProperty, EtwProvider, TraceLevel};

#[test]
fn test_provider_creation() {
    let provider = EtwProvider::by_guid(known_providers::KERNEL_PROCESS)
        .with_name("Test".to_string())
        .with_level(TraceLevel::Info);

    assert_eq!(provider.name, Some("Test".to_string()));
    assert_eq!(provider.level, TraceLevel::Info);
}

#[test]
fn test_provider_from_guid_str() {
    let provider = EtwProvider::from_guid_str("22fb2cd6-0e7b-422b-a0c7-2fad1fd0e716").unwrap();
    assert_eq!(provider.guid, known_providers::KERNEL_PROCESS);
}

#[test]
fn test_provider_invalid_guid() {
    let result = EtwProvider::from_guid_str("invalid-guid");
    assert!(result.is_err());
}

#[test]
fn test_matches_event_level() {
    let provider = EtwProvider::by_guid(uuid::Uuid::new_v4().as_u128())
        .with_level(TraceLevel::Warning);

    // Should match: level <= Warning (3)
    assert!(provider.matches_event(1, 0, 1, 0)); // Critical
    assert!(provider.matches_event(1, 0, 2, 0)); // Error
    assert!(provider.matches_event(1, 0, 3, 0)); // Warning

    // Should not match: level > Warning
    assert!(!provider.matches_event(1, 0, 4, 0)); // Info
    assert!(!provider.matches_event(1, 0, 5, 0)); // Verbose
}

#[test]
fn test_matches_event_keywords() {
    let provider = EtwProvider::by_guid(uuid::Uuid::new_v4().as_u128()).with_keywords_any(0x0F);

    assert!(provider.matches_event(1, 0, 0, 0x01)); // Matches any
    assert!(provider.matches_event(1, 0, 0, 0x08)); // Matches any
    assert!(!provider.matches_event(1, 0, 0, 0x10)); // No match
}

#[test]
fn test_matches_event_level_all_levels() {
    let provider = EtwProvider::by_guid(1).with_level(TraceLevel::Warning);
    assert!(provider.matches_event(1, 0, 0, 0)); // Always
    assert!(!provider.matches_event(1, 0, 255, 0));
}

#[test]
fn test_matches_event_keywords_all() {
    let provider = EtwProvider::by_guid(1).with_keywords_all(0x6);
    assert!(provider.matches_event(1, 0, 0, 0x6));
    assert!(provider.matches_event(1, 0, 0, 0xF));
    assert!(!provider.matches_event(1, 0, 0, 0x2));
    assert!(!provider.matches_event(1, 0, 0, 0x0));
}

#[test]
fn test_matches_event_with_filters() {
    let provider = EtwProvider::by_guid(1).with_filter(EventFilter::EventIds(vec![10, 20]));
    assert!(provider.matches_event(10, 0, 0, 0));
    assert!(provider.matches_event(20, 0, 0, 0));
    assert!(!provider.matches_event(30, 0, 0, 0));
}

#[test]
fn test_provider_defaults() {
    let provider = EtwProvider::by_guid(9);
    assert_eq!(provider.guid, 9);
    assert_eq!(provider.name, None);
    assert_eq!(provider.level, TraceLevel::Verbose);
    assert_eq!(provider.keywords_any, u64::MAX);
    assert_eq!(provider.keywords_all, 0);
    assert!(provider.enabled);
    assert!(!provider.capture_stack);
    assert!(provider.filters.is_empty());
}

#[test]
fn test_provider_invalid_guid_error_detail() {
    match EtwProvider::from_guid_str("not-a-guid") {
        Err(EtwError::InvalidProviderGuid(text)) => assert_eq!(text, "not-a-guid"),
        other => panic!("expected InvalidProviderGuid, got {:?}", other.map(|p| p.guid)),
    }
}

#[test]
fn test_trace_level_values() {
    assert_eq!(TraceLevel::Always.as_u8(), 0);
    assert_eq!(TraceLevel::Critical.as_u8(), 1);
    assert_eq!(TraceLevel::Error.as_u8(), 2);
    assert_eq!(TraceLevel::Warning.as_u8(), 3);
    assert_eq!(TraceLevel::Info.as_u8(), 4);
    assert_eq!(TraceLevel::Verbose.as_u8(), 5);
    assert_eq!(TraceLevel::from(3u8), TraceLevel::Warning);
    assert_eq!(TraceLevel::from(200u8), TraceLevel::Verbose);
    assert_eq!(TraceLevel::default(), TraceLevel::Verbose);
}

#[test]
fn test_enable_property_values() {
    assert_eq!(EnableProperty::StackTrace.value(), 0x1);
    assert_eq!(EnableProperty::Sid.value(), 0x2);
    assert_eq!(EnableProperty::TsId.value(), 0x4);
    assert_eq!(EnableProperty::ProcessStartKey.value(), 0x8);
}
