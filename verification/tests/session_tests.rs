use etwkit::error::EtwError;
use etwkit::event::EtwEvent;
use etwkit::filter::EventFilter;
use etwkit::provider::{EtwProvider, TraceLevel};
use etwkit::session::{EtwSession, SessionConfig, TraceMode};

#[test]
fn test_session_config_default() {
    let config = SessionConfig::default();
    assert!(config.name.starts_with("PyETWkit-"));
    assert_eq!(config.buffer_size_kb, 64);
    assert_eq!(config.min_buffers, 64);
}

#[test]
fn test_session_creation() {
    let session = EtwSession::new("TestSession".to_string());
    assert_eq!(session.name(), "TestSession");
    assert!(!session.is_running());
}

#[test]
fn test_session_add_provider() {
    let mut session = EtwSession::new("TestSession".to_string());
    session.add_provider(EtwProvider::by_guid(uuid::Uuid::new_v4().as_u128()));
    assert_eq!(session.providers.len(), 1);
}

#[test]
fn test_session_config_default_mode() {
    let config = SessionConfig::default();
    assert_eq!(config.mode, TraceMode::RealTime);
    assert_eq!(config.max_buffers, 128);
    assert_eq!(config.flush_timer_secs, 1);
    assert!(config.stop_if_exists);
    assert_eq!(config.channel_capacity, 10000);
    // The random suffix fills the name to a fixed length.
    assert_eq!(config.name.len(), 17);
}

#[test]
fn test_start_only_first_succeeds() {
    let mut session = EtwSession::new("OnlyFirst".to_string());
    assert!(session.start().is_ok());
    assert!(session.is_running());
    assert!(matches!(session.start(), Err(EtwError::SessionAlreadyRunning)));
    assert!(matches!(session.start(), Err(EtwError::SessionAlreadyRunning)));
    assert!(session.stop().is_ok());
    assert!(!session.is_running());
    // After a stop, a start may succeed again.
    assert!(session.start().is_ok());
}

#[test]
fn test_stop_needs_running() {
    let mut session = EtwSession::new("StopFresh".to_string());
    // Never started: stop reports not running.
    assert!(matches!(session.stop(), Err(EtwError::SessionNotRunning)));
    session.start().unwrap();
    assert!(session.stop().is_ok());
    // Already stopped: the second stop reports not running.
    assert!(matches!(session.stop(), Err(EtwError::SessionNotRunning)));
}

#[test]
fn test_start_plan_projects_providers() {
    let mut session = EtwSession::new("PlanCheck".to_string());
    let provider = EtwProvider::by_guid(77)
        .with_level(TraceLevel::Warning)
        .with_keywords_any(0x0F)
        .with_keywords_all(0x3)
        .with_filter(EventFilter::EventIds(vec![1, 2, 3]))
        .with_filter(EventFilter::ProcessId(1000))
        .with_filter(EventFilter::ProcessId(100000))
        .with_filter(EventFilter::ProcessName("x".to_string()));
    session.add_provider(provider);
    let plan = session.start().unwrap();
    assert_eq!(plan.session_name, "PlanCheck");
    assert_eq!(plan.stop_existing_name, Some("PlanCheck".to_string()));
    assert_eq!(plan.providers.len(), 1);
    let bp = &plan.providers[0];
    assert_eq!(bp.guid, 77);
    assert_eq!(bp.level, 3);
    assert_eq!(bp.keywords_any, Some(0x0F));
    assert_eq!(bp.keywords_all, Some(0x3));
    assert_eq!(bp.event_id_filters, vec![1, 2, 3]);
    // The 100000 process id does not fit the backend's 16-bit filter
    // width and is dropped from the backend-side plan.
    assert_eq!(bp.pid_filters, vec![1000]);
}

#[test]
fn test_start_plan_unrestricted_keywords_are_absent() {
    let mut session = EtwSession::new("PlanDefaults".to_string());
    session.add_provider(EtwProvider::by_guid(5));
    let plan = session.start().unwrap();
    let bp = &plan.providers[0];
    assert_eq!(bp.keywords_any, None);
    assert_eq!(bp.keywords_all, None);
    assert_eq!(bp.level, 5);
    assert!(bp.event_id_filters.is_empty());
    assert!(bp.pid_filters.is_empty());
}

#[test]
fn test_stop_action_names_session() {
    let mut session = EtwSession::new("StopName".to_string());
    session.start().unwrap();
    let action = session.stop().unwrap();
    assert_eq!(action.session_name, "StopName");
}

#[test]
fn test_channel_overflow_accounting() {
    let mut config = SessionConfig::default();
    config.name = "Overflow".to_string();
    config.channel_capacity = 3;
    let mut session = EtwSession::with_config(config);
    // Five deliveries into a channel of capacity three with no consumer:
    // exactly two report full.
    let mut dropped = 0;
    for i in 0..5u16 {
        let event = EtwEvent::new(1, i);
        let outcome = session.deliver_event(event);
        if outcome == etwkit::session::DeliveryOutcome::Dropped {
            dropped += 1;
        }
    }
    assert_eq!(dropped, 2);
    let stats = session.stats();
    assert_eq!(stats.events_received, 5);
    assert_eq!(stats.events_processed, 3);
    assert_eq!(stats.events_lost, 2);
}

#[test]
fn test_events_come_out_in_order() {
    let mut config = SessionConfig::default();
    config.name = "Fifo".to_string();
    config.channel_capacity = 10;
    let mut session = EtwSession::with_config(config);
    for i in 0..4u16 {
        session.deliver_event(EtwEvent::new(9, i));
    }
    for i in 0..4u16 {
        let event = session.try_next_event().unwrap();
        assert_eq!(event.event_id, i);
    }
    assert!(session.try_next_event().is_none());
}

#[test]
fn test_next_event_timeout_empty_and_nonempty() {
    let mut config = SessionConfig::default();
    config.name = "Timed".to_string();
    config.channel_capacity = 4;
    let mut session = EtwSession::with_config(config);
    assert!(session.next_event_timeout(10).is_none());
    session.deliver_event(EtwEvent::new(2, 7));
    let event = session.next_event_timeout(10).unwrap();
    assert_eq!(event.event_id, 7);
}

#[test]
fn test_next_event_returns_queued() {
    let mut config = SessionConfig::default();
    config.name = "Blocking".to_string();
    config.channel_capacity = 4;
    let mut session = EtwSession::with_config(config);
    assert!(session.next_event().is_none());
    session.deliver_event(EtwEvent::new(2, 3));
    let event = session.next_event().unwrap();
    assert_eq!(event.event_id, 3);
}

#[test]
fn test_backend_exit_stops_session() {
    let mut session = EtwSession::new("LoopExit".to_string());
    session.start().unwrap();
    assert!(session.is_running());
    session.handle_backend_exit();
    assert!(!session.is_running());
    assert!(matches!(session.stop(), Err(EtwError::SessionNotRunning)));
}

#[test]
fn test_start_without_stop_if_exists() {
    let mut config = SessionConfig::default();
    config.name = "NoPreStop".to_string();
    config.stop_if_exists = false;
    let mut session = EtwSession::with_config(config);
    let plan = session.start().unwrap();
    assert_eq!(plan.stop_existing_name, None);
}
