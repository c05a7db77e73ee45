use etwkit::event::{EtwEvent, EventValue, Timestamp};
use etwkit::known_providers;

#[test]
fn test_json_round_trip_event_id_and_message() {
    let mut event = EtwEvent::new(known_providers::KERNEL_PROCESS, 1);
    event.properties.push((
        "Message".to_string(),
        EventValue::String("Hello".to_string()),
    ));

    let json = event.to_json();
    let value: serde_json::Value = serde_json::from_str(&json).unwrap();
    assert_eq!(value["event_id"], serde_json::Value::from(1));
    assert_eq!(
        value["properties"]["Message"],
        serde_json::Value::from("Hello")
    );
    assert_eq!(
        value["provider_id"],
        serde_json::Value::from("22fb2cd6-0e7b-422b-a0c7-2fad1fd0e716")
    );
}

#[test]
fn test_json_escapes_strings() {
    let mut event = EtwEvent::new(1, 2);
    event.properties.push((
        "Text".to_string(),
        EventValue::String("a\"b\\c\nd\te\u{1}".to_string()),
    ));
    let json = event.to_json();
    let value: serde_json::Value = serde_json::from_str(&json).unwrap();
    assert_eq!(
        value["properties"]["Text"],
        serde_json::Value::from("a\"b\\c\nd\te\u{1}")
    );
}

#[test]
fn test_json_nested_values() {
    let mut event = EtwEvent::new(3, 4);
    event.timestamp = Timestamp { secs: 12, nanos: 500 };
    event.activity_id = Some(known_providers::DNS_CLIENT);
    event.properties.push((
        "Data".to_string(),
        EventValue::Array(vec![
            EventValue::U32(1),
            EventValue::Bool(false),
            EventValue::Struct(vec![("inner".to_string(), EventValue::I64(-7))]),
            EventValue::Null,
        ]),
    ));
    event.properties.push(("Blob".to_string(), EventValue::Binary(vec![0, 127, 255])));
    event.properties.push(("Ptr".to_string(), EventValue::Pointer(255)));
    event.raw_data = Some(vec![9, 8]);
    event.stack_trace = Some(vec![1, 2, 3]);

    let json = event.to_json();
    let value: serde_json::Value = serde_json::from_str(&json).unwrap();
    assert_eq!(value["timestamp"]["secs"], serde_json::Value::from(12));
    assert_eq!(value["timestamp"]["nanos"], serde_json::Value::from(500));
    assert_eq!(
        value["activity_id"],
        serde_json::Value::from("1c95126e-7eea-49a9-a3fe-a378b03ddb4d")
    );
    assert_eq!(value["related_activity_id"], serde_json::Value::Null);
    let data = &value["properties"]["Data"];
    assert_eq!(data[0], serde_json::Value::from(1));
    assert_eq!(data[1], serde_json::Value::from(false));
    assert_eq!(data[2]["inner"], serde_json::Value::from(-7));
    assert_eq!(data[3], serde_json::Value::Null);
    assert_eq!(value["properties"]["Blob"][2], serde_json::Value::from(255));
    assert_eq!(value["properties"]["Ptr"], serde_json::Value::from("0xff"));
    assert_eq!(value["raw_data"][0], serde_json::Value::from(9));
    assert_eq!(value["stack_trace"][2], serde_json::Value::from(3));
}
