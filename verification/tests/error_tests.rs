use etwkit::error::EtwError;

#[test]
fn test_error_display() {
    let err = EtwError::SessionExists("test".to_string());
    assert_eq!(err.message(), "ETW session 'test' already exists");
}

#[test]
fn test_error_messages() {
    // Test various error message formats
    assert_eq!(
        EtwError::SessionNotFound("test".to_string()).message(),
        "ETW session 'test' not found"
    );
    assert_eq!(
        EtwError::PermissionDenied.message(),
        "Permission denied: ETW operations require administrator privileges"
    );
    assert_eq!(
        EtwError::WindowsError("Access denied".to_string(), 5).message(),
        "Windows API error: Access denied (code: 5)"
    );
    assert_eq!(
        EtwError::Timeout(5000).message(),
        "Operation timed out after 5000ms"
    );
}

#[test]
fn test_more_error_messages() {
    assert_eq!(
        EtwError::StartTraceFailed("boom".to_string()).message(),
        "Failed to start ETW trace: boom"
    );
    assert_eq!(
        EtwError::StopTraceFailed("bang".to_string()).message(),
        "Failed to stop ETW trace: bang"
    );
    assert_eq!(
        EtwError::EnableProviderFailed("guid".to_string(), "denied".to_string()).message(),
        "Failed to enable provider guid: denied"
    );
    assert_eq!(
        EtwError::InvalidProviderGuid("xyz".to_string()).message(),
        "Invalid provider GUID: xyz"
    );
    assert_eq!(
        EtwError::ProviderNotFound("prov".to_string()).message(),
        "Provider 'prov' not found"
    );
    assert_eq!(
        EtwError::EventParseError("bad".to_string()).message(),
        "Failed to parse event: bad"
    );
    assert_eq!(
        EtwError::SchemaNotFound("prov".to_string(), 42).message(),
        "Schema not found for event (provider: prov, id: 42)"
    );
    assert_eq!(
        EtwError::ChannelError("closed".to_string()).message(),
        "Channel error: closed"
    );
    assert_eq!(EtwError::SessionNotRunning.message(), "Session is not running");
    assert_eq!(EtwError::SessionAlreadyRunning.message(), "Session is already running");
    assert_eq!(
        EtwError::InvalidConfig("zero".to_string()).message(),
        "Invalid configuration: zero"
    );
    assert_eq!(
        EtwError::BufferOverflow(17).message(),
        "Buffer overflow: 17 events lost"
    );
    assert_eq!(
        EtwError::Internal("oops".to_string()).message(),
        "Internal error: oops"
    );
    assert_eq!(EtwError::TdhError("api".to_string()).message(), "TDH API error: api");
    assert_eq!(
        EtwError::FileNotFound("a.etl".to_string()).message(),
        "File not found: a.etl"
    );
    assert_eq!(
        EtwError::InvalidFileFormat("junk".to_string()).message(),
        "Invalid file format: junk"
    );
}
