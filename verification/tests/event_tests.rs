use etwkit::event::{EtwEvent, EventValue, Timestamp};
use etwkit::known_providers;
use etwkit::session::{parse_event_record, RawEventRecord};

#[test]
fn test_event_creation() {
    let event = EtwEvent::new(uuid::Uuid::new_v4().as_u128(), 100);
    assert_eq!(event.event_id, 100);
    assert_eq!(event.level, 4);
}

#[test]
fn test_event_value_as_string() {
    assert_eq!(
        EventValue::String("test".to_string()).as_string(),
        Some("test".to_string())
    );
    assert_eq!(EventValue::U32(42).as_string(), Some("42".to_string()));
    assert_eq!(EventValue::Bool(true).as_string(), Some("true".to_string()));
}

#[test]
fn test_event_value_as_u64() {
    assert_eq!(EventValue::U64(100).as_u64(), Some(100));
    assert_eq!(EventValue::U32(50).as_u64(), Some(50));
    assert_eq!(EventValue::String("test".to_string()).as_u64(), None);
}

#[test]
fn test_event_json_serialization() {
    let mut event = EtwEvent::new(0, 1);
    event.properties.push((
        "Message".to_string(),
        EventValue::String("Hello".to_string()),
    ));

    let json = event.to_json();
    assert!(json.contains("\"event_id\":1"));
    assert!(json.contains("\"Message\":\"Hello\""));
}

#[test]
fn test_event_value_negative_narrowing_fails() {
    assert_eq!(EventValue::I8(-1).as_u32(), None);
    assert_eq!(EventValue::I16(-5).as_u64(), None);
    assert_eq!(EventValue::I32(-1).as_u32(), None);
    assert_eq!(EventValue::I64(-1).as_u64(), None);
    assert_eq!(EventValue::I32(7).as_u32(), Some(7));
    assert_eq!(EventValue::I64(7).as_u64(), Some(7));
}

#[test]
fn test_event_value_as_u64_pointer() {
    assert_eq!(EventValue::Pointer(0xdead).as_u64(), Some(0xdead));
    assert_eq!(EventValue::Pointer(0xdead).as_u32(), None);
}

#[test]
fn test_event_value_pointer_as_string() {
    assert_eq!(EventValue::Pointer(255).as_string(), Some("0xff".to_string()));
    assert_eq!(EventValue::Pointer(0).as_string(), Some("0x0".to_string()));
}

#[test]
fn test_event_value_negative_as_string() {
    assert_eq!(EventValue::I64(-12345).as_string(), Some("-12345".to_string()));
    assert_eq!(EventValue::I8(i8::MIN).as_string(), Some("-128".to_string()));
    assert_eq!(EventValue::U64(u64::MAX).as_string(), Some("18446744073709551615".to_string()));
}

#[test]
fn test_event_value_guid_as_string() {
    let text = EventValue::Guid(known_providers::KERNEL_PROCESS).as_string().unwrap();
    assert_eq!(text, "22fb2cd6-0e7b-422b-a0c7-2fad1fd0e716");
}

#[test]
fn test_event_value_system_time_as_string() {
    let value = EventValue::SystemTime(Timestamp { secs: 5, nanos: 123 });
    assert_eq!(value.as_string(), Some("5.000000123".to_string()));
    let value = EventValue::SystemTime(Timestamp { secs: -3, nanos: 500_000_000 });
    assert_eq!(value.as_string(), Some("-3.500000000".to_string()));
    let value = EventValue::SystemTime(Timestamp { secs: 0, nanos: 0 });
    assert_eq!(value.as_string(), Some("0.000000000".to_string()));
}

#[test]
fn test_event_value_non_scalar_as_string_fails() {
    assert_eq!(EventValue::Null.as_string(), None);
    assert_eq!(EventValue::Binary(vec![1, 2]).as_string(), None);
    assert_eq!(EventValue::FileTime(7).as_string(), None);
    assert_eq!(EventValue::Array(vec![]).as_string(), None);
    assert_eq!(EventValue::Struct(vec![]).as_string(), None);
}

#[test]
fn test_event_value_is_null() {
    assert!(EventValue::Null.is_null());
    assert!(!EventValue::U8(0).is_null());
}

#[test]
fn test_event_property_lookup() {
    let mut event = EtwEvent::new(1, 2);
    event.properties.push(("ProcessId".to_string(), EventValue::U32(4242)));
    event.properties.push(("Message".to_string(), EventValue::String("hi".to_string())));
    assert_eq!(event.get_u32("ProcessId"), Some(4242));
    assert_eq!(event.get_u64("ProcessId"), Some(4242));
    assert_eq!(event.get_string("Message"), Some("hi".to_string()));
    assert!(event.get("Missing").is_none());
    assert_eq!(event.get_string("Missing"), None);
}

#[test]
fn test_parse_event_record_epoch() {
    let record = RawEventRecord {
        provider_id: 7,
        event_id: 10,
        version: 2,
        opcode: 3,
        level: 4,
        keywords: 0x80,
        process_id: 1000,
        thread_id: 2000,
        raw_timestamp: 116444736000000000,
        activity_id: 0,
    };
    let event = parse_event_record(&record, None, Vec::new());
    assert_eq!(event.provider_id, 7);
    assert_eq!(event.event_id, 10);
    assert_eq!(event.version, 2);
    assert_eq!(event.opcode, 3);
    assert_eq!(event.level, 4);
    assert_eq!(event.keywords, 0x80);
    assert_eq!(event.process_id, 1000);
    assert_eq!(event.thread_id, 2000);
    assert_eq!(event.timestamp.secs, 0);
    assert_eq!(event.timestamp.nanos, 0);
    assert!(event.activity_id.is_none());
    assert_eq!(event.task, 0);
}

#[test]
fn test_parse_event_record_timestamp_and_activity() {
    // 2020-01-01T00:00:00Z is 1577836800 Unix seconds.
    let ticks: i64 = 116444736000000000 + 1577836800 * 10_000_000 + 1_234_567;
    let record = RawEventRecord {
        provider_id: 1,
        event_id: 1,
        version: 0,
        opcode: 0,
        level: 0,
        keywords: 0,
        process_id: 0,
        thread_id: 0,
        raw_timestamp: ticks,
        activity_id: 42,
    };
    let event = parse_event_record(&record, Some("SomeProvider".to_string()), Vec::new());
    assert_eq!(event.timestamp.secs, 1577836800);
    assert_eq!(event.timestamp.nanos, 123_456_700);
    assert_eq!(event.activity_id, Some(42));
    assert_eq!(event.provider_name, Some("SomeProvider".to_string()));
}
