use etwkit::schema::{EventSchema, PropertyInfo, PropertyType, SchemaCache, SchemaType};

fn sample_schema(provider: &str, event_id: u16, version: u8) -> EventSchema {
    EventSchema {
        provider_id: provider.to_string(),
        event_id,
        version,
        event_name: None,
        properties: Vec::new(),
        schema_type: SchemaType::Manifest,
    }
}

#[test]
fn test_property_type_as_str() {
    assert_eq!(PropertyType::String.as_str(), "string");
    assert_eq!(PropertyType::Int32.as_str(), "int32");
    assert_eq!(PropertyType::Guid.as_str(), "guid");
}

#[test]
fn test_schema_property_names() {
    let schema = EventSchema {
        provider_id: "test".to_string(),
        event_id: 1,
        version: 0,
        event_name: None,
        properties: vec![
            PropertyInfo {
                name: "ProcessId".to_string(),
                property_type: PropertyType::UInt32,
                length: Some(4),
                is_array: false,
            },
            PropertyInfo {
                name: "ImageFileName".to_string(),
                property_type: PropertyType::String,
                length: None,
                is_array: false,
            },
        ],
        schema_type: SchemaType::Manifest,
    };

    let names = schema.property_names();
    assert_eq!(names, vec!["ProcessId".to_string(), "ImageFileName".to_string()]);
}

#[test]
fn test_schema_get_property() {
    let schema = EventSchema {
        provider_id: "test".to_string(),
        event_id: 1,
        version: 0,
        event_name: Some("Start".to_string()),
        properties: vec![PropertyInfo {
            name: "ProcessId".to_string(),
            property_type: PropertyType::UInt32,
            length: Some(4),
            is_array: false,
        }],
        schema_type: SchemaType::Mof,
    };
    let found = schema.get_property("ProcessId").unwrap();
    assert_eq!(found.property_type, PropertyType::UInt32);
    assert!(schema.get_property("Missing").is_none());
}

#[test]
fn test_schema_type_as_str() {
    assert_eq!(SchemaType::Manifest.as_str(), "manifest");
    assert_eq!(SchemaType::Mof.as_str(), "mof");
    assert_eq!(SchemaType::TraceLogging.as_str(), "tracelogging");
    assert_eq!(SchemaType::Unknown.as_str(), "unknown");
}

#[test]
fn test_schema_cache_insert_and_get() {
    let mut cache = SchemaCache::new();
    assert!(cache.is_empty());
    cache.insert(sample_schema("prov-a", 1, 0));
    cache.insert(sample_schema("prov-a", 2, 0));
    cache.insert(sample_schema("prov-b", 1, 0));
    assert_eq!(cache.len(), 3);
    assert!(cache.get("prov-a", 1, 0).is_some());
    assert!(cache.get("prov-a", 2, 0).is_some());
    assert!(cache.get("prov-b", 1, 0).is_some());
    assert!(cache.get("prov-a", 1, 1).is_none());
    assert!(cache.get("prov-c", 1, 0).is_none());
}

#[test]
fn test_schema_cache_insert_replaces() {
    let mut cache = SchemaCache::new();
    cache.insert(sample_schema("prov", 1, 0));
    let mut other = sample_schema("prov", 2, 0);
    other.event_name = Some("Untouched".to_string());
    cache.insert(other);
    let mut replacement = sample_schema("prov", 1, 0);
    replacement.event_name = Some("Renamed".to_string());
    cache.insert(replacement);
    // The same key is replaced in place, not duplicated.
    assert_eq!(cache.len(), 2);
    let found = cache.get("prov", 1, 0).unwrap();
    assert_eq!(found.event_name, Some("Renamed".to_string()));
    // Other keys keep their answer.
    let kept = cache.get("prov", 2, 0).unwrap();
    assert_eq!(kept.event_name, Some("Untouched".to_string()));
}

#[test]
fn test_schema_cache_clear() {
    let mut cache = SchemaCache::new();
    cache.insert(sample_schema("prov", 1, 0));
    assert!(!cache.is_empty());
    cache.clear();
    assert!(cache.is_empty());
    assert_eq!(cache.len(), 0);
    assert!(cache.get("prov", 1, 0).is_none());
}
