use etwkit::error::EtwError;
use etwkit::etl_reader::EtlReader;
use etwkit::event::EtwEvent;

#[test]
fn test_etl_reader_file_not_found() {
    let result = EtlReader::new("nonexistent.etl".to_string(), false);
    assert!(result.is_err());
}

#[test]
fn test_etl_reader_file_not_found_error_kind() {
    match EtlReader::new("nonexistent.etl".to_string(), false) {
        Err(EtwError::FileNotFound(path)) => assert_eq!(path, "nonexistent.etl"),
        _ => panic!("expected FileNotFound"),
    }
}

#[test]
fn test_etl_reader_replay_pass() {
    let mut reader = EtlReader::new("capture.etl".to_string(), true).unwrap();
    assert_eq!(reader.path(), "capture.etl");
    assert!(reader.is_finished()); // never started
    let action = reader.start().unwrap();
    assert_eq!(action.path, "capture.etl");
    assert!(!reader.is_finished());
    reader.deliver_event(EtwEvent::new(1, 10));
    reader.deliver_event(EtwEvent::new(1, 11));
    assert_eq!(reader.next_event().unwrap().event_id, 10);
    reader.finish();
    assert!(reader.is_finished());
    assert_eq!(reader.try_next_event().unwrap().event_id, 11);
    assert!(reader.try_next_event().is_none());
}

#[test]
fn test_etl_reader_cannot_restart() {
    let mut reader = EtlReader::new("capture.etl".to_string(), true).unwrap();
    reader.start().unwrap();
    // Starting a reader that is already reading fails.
    assert!(matches!(reader.start(), Err(EtwError::SessionAlreadyRunning)));
    reader.finish();
    // Once exhausted, the reader is consumed: no further start succeeds.
    assert!(reader.start().is_err());
}

#[test]
fn test_etl_reader_read_all() {
    let mut reader = EtlReader::new("capture.etl".to_string(), true).unwrap();
    reader.start().unwrap();
    for i in 0..5u16 {
        reader.deliver_event(EtwEvent::new(2, i));
    }
    let events = reader.read_all();
    assert_eq!(events.len(), 5);
    for (i, event) in events.iter().enumerate() {
        assert_eq!(event.event_id, i as u16);
    }
    assert!(reader.is_finished());
    assert!(reader.try_next_event().is_none());
    assert!(reader.start().is_err());
}

#[test]
fn test_etl_reader_wait() {
    let mut reader = EtlReader::new("capture.etl".to_string(), true).unwrap();
    reader.start().unwrap();
    reader.wait();
    assert!(reader.is_finished());
}
