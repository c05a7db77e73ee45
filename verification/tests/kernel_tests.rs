use etwkit::error::EtwError;
use etwkit::event::EtwEvent;
use etwkit::kernel::{KernelEventCategory, KernelSession, KernelSessionConfig};

#[test]
fn test_kernel_category_flags() {
    assert_eq!(KernelEventCategory::Process.to_flags(), 0x00000001);
    assert_eq!(KernelEventCategory::Thread.to_flags(), 0x00000002);
    assert_eq!(KernelEventCategory::ImageLoad.to_flags(), 0x00000004);
}

#[test]
fn test_combine_categories() {
    let combined = KernelEventCategory::combine(&vec![
        KernelEventCategory::Process,
        KernelEventCategory::Thread,
    ]);
    assert_eq!(combined, 0x00000003);
}

#[test]
fn test_kernel_session_creation() {
    let session = KernelSession::new();
    assert!(!session.is_running());
}

#[test]
fn test_kernel_config_default() {
    let config = KernelSessionConfig::default();
    assert_eq!(config.name, "PyETWkit-Kernel");
    assert_eq!(config.categories, KernelEventCategory::AllBasic.to_flags());
}

#[test]
fn test_kernel_more_category_flags() {
    assert_eq!(KernelEventCategory::DiskIo.to_flags(), 0x00000100);
    assert_eq!(KernelEventCategory::Network.to_flags(), 0x00010000);
    assert_eq!(KernelEventCategory::Registry.to_flags(), 0x00020000);
    assert_eq!(KernelEventCategory::FileIo.to_flags(), 0x02000000);
    assert_eq!(KernelEventCategory::AllBasic.to_flags(), 0x00000007);
    assert_eq!(KernelEventCategory::All.to_flags(), 0xFFFFFFFF);
}

#[test]
fn test_kernel_enable_category() {
    let mut session = KernelSession::new();
    session.set_categories(0);
    session.enable_category(KernelEventCategory::Network);
    session.enable_category(KernelEventCategory::Registry);
    assert_eq!(session.config.categories, 0x00030000);
}

#[test]
fn test_kernel_start_only_first_succeeds() {
    let mut session = KernelSession::new();
    assert!(session.start().is_ok());
    assert!(session.is_running());
    assert!(matches!(session.start(), Err(EtwError::SessionAlreadyRunning)));
    assert!(session.stop().is_ok());
    assert!(!session.is_running());
    assert!(matches!(session.stop(), Err(EtwError::SessionNotRunning)));
}

#[test]
fn test_kernel_start_plan_names() {
    let mut session = KernelSession::new();
    session.set_categories(0x5);
    let plan = session.start().unwrap();
    assert_eq!(plan.session_name, "PyETWkit-Kernel");
    assert_eq!(plan.categories, 0x5);
    // Kernel sessions are singletons: both the well-known name and the
    // configured one are cleared first.
    assert_eq!(
        plan.stop_existing_names,
        vec!["NT Kernel Logger".to_string(), "PyETWkit-Kernel".to_string()]
    );
    let action = session.stop().unwrap();
    assert_eq!(
        action.stop_names,
        vec!["NT Kernel Logger".to_string(), "PyETWkit-Kernel".to_string()]
    );
}

#[test]
fn test_kernel_delivery_and_receive() {
    let mut config = KernelSessionConfig::default();
    config.channel_capacity = 2;
    let mut session = KernelSession::with_config(config);
    session.deliver_event(EtwEvent::new(1, 1));
    session.deliver_event(EtwEvent::new(1, 2));
    session.deliver_event(EtwEvent::new(1, 3));
    let stats = session.stats();
    assert_eq!(stats.events_received, 3);
    assert_eq!(stats.events_processed, 2);
    assert_eq!(stats.events_lost, 1);
    assert_eq!(session.try_next_event().unwrap().event_id, 1);
    assert_eq!(session.next_event_timeout(10).unwrap().event_id, 2);
    assert!(session.try_next_event().is_none());
    assert!(session.next_event().is_none());
}
