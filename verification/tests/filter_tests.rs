use etwkit::filter::{EventFilter, FilterBuilder};

#[test]
fn test_event_id_filter() {
    let filter = EventFilter::EventIds(vec![1, 2, 3]);
    assert!(filter.matches(1, 0));
    assert!(filter.matches(2, 0));
    assert!(!filter.matches(4, 0));
}

#[test]
fn test_opcode_filter() {
    let filter = EventFilter::Opcodes(vec![10, 20]);
    assert!(filter.matches(1, 10));
    assert!(filter.matches(1, 20));
    assert!(!filter.matches(1, 30));
}

#[test]
fn test_exclude_filter() {
    let filter = EventFilter::ExcludeEventIds(vec![100, 200]);
    assert!(filter.matches(1, 0));
    assert!(!filter.matches(100, 0));
    assert!(!filter.matches(200, 0));
}

#[test]
fn test_process_filter() {
    let filter = EventFilter::ProcessId(1234);
    assert!(filter.matches_process(1234, None));
    assert!(!filter.matches_process(5678, None));

    let filter = EventFilter::ProcessName("chrome".to_string());
    assert!(filter.matches_process(0, Some("chrome.exe")));
    assert!(filter.matches_process(0, Some("Google Chrome")));
    assert!(!filter.matches_process(0, Some("firefox.exe")));
}

#[test]
fn test_filter_builder() {
    let filters = FilterBuilder::new().event_ids(vec![1, 2, 3]).process_id(1000).build();

    assert_eq!(filters.len(), 2);
}

#[test]
fn test_filter_builder_matches() {
    let builder = FilterBuilder::new().event_ids(vec![1, 2, 3]).process_id(1000);

    assert!(builder.matches_all(1, 0, 1000, None));
    assert!(!builder.matches_all(4, 0, 1000, None)); // Wrong event ID
    assert!(!builder.matches_all(1, 0, 2000, None)); // Wrong PID
}

#[test]
fn test_exclude_filter_passes_everything_else() {
    let filter = EventFilter::ExcludeEventIds(vec![100]);
    assert!(!filter.matches(100, 0));
    for id in [0u16, 1, 99, 101, 65535] {
        assert!(filter.matches(id, 0));
        assert!(filter.matches(id, 255));
    }
}

#[test]
fn test_event_id_filter_ignores_opcode() {
    let filter = EventFilter::EventIds(vec![1, 2, 3]);
    for op in [0u8, 1, 128, 255] {
        assert!(filter.matches(2, op));
        assert!(!filter.matches(4, op));
    }
}

#[test]
fn test_process_name_filter_is_case_insensitive() {
    let filter = EventFilter::ProcessName("ChRoMe".to_string());
    assert!(filter.matches_process(0, Some("CHROME.EXE")));
    assert!(filter.matches_process(0, Some("chrome")));
    assert!(!filter.matches_process(0, None));
}

#[test]
fn test_empty_builder_matches_everything() {
    let builder = FilterBuilder::new();
    assert!(builder.matches_all(42, 9, 7, Some("anything")));
}
