use etwkit::discovery::{
    eq_ignore_ascii_case, find_provider, find_provider_details, search_provider_list,
    ProviderInfo, ProviderSource,
};
use etwkit::known_providers;

fn sample_providers() -> Vec<ProviderInfo> {
    vec![
        ProviderInfo {
            guid: known_providers::KERNEL_PROCESS,
            name: "Microsoft-Windows-Kernel-Process".to_string(),
            source: ProviderSource::Xml,
        },
        ProviderInfo {
            guid: known_providers::DNS_CLIENT,
            name: "Microsoft-Windows-DNS-Client".to_string(),
            source: ProviderSource::Xml,
        },
        ProviderInfo {
            guid: 42,
            name: "Legacy-Mof-Provider".to_string(),
            source: ProviderSource::Mof,
        },
    ]
}

#[test]
fn test_search_matches_case_insensitively() {
    let hits = search_provider_list(sample_providers(), "kernel");
    assert_eq!(hits.len(), 1);
    assert_eq!(hits[0].guid, known_providers::KERNEL_PROCESS);

    let hits = search_provider_list(sample_providers(), "MICROSOFT");
    assert_eq!(hits.len(), 2);

    let hits = search_provider_list(sample_providers(), "nothing");
    assert!(hits.is_empty());
}

#[test]
fn test_find_provider_by_guid_string() {
    let found = find_provider(sample_providers(), "22fb2cd6-0e7b-422b-a0c7-2fad1fd0e716").unwrap();
    assert_eq!(found.guid, known_providers::KERNEL_PROCESS);
    assert_eq!(found.name, "Microsoft-Windows-Kernel-Process");
}

#[test]
fn test_find_provider_by_name() {
    let found = find_provider(sample_providers(), "microsoft-windows-dns-client").unwrap();
    assert_eq!(found.guid, known_providers::DNS_CLIENT);
    assert!(find_provider(sample_providers(), "no-such-provider").is_none());
}

#[test]
fn test_find_provider_details_has_empty_keywords() {
    let details = find_provider_details(sample_providers(), "Legacy-Mof-Provider").unwrap();
    assert_eq!(details.info.guid, 42);
    assert_eq!(details.info.source, ProviderSource::Mof);
    assert!(details.keywords.is_empty());
}

#[test]
fn test_eq_ignore_ascii_case_behavior() {
    assert!(eq_ignore_ascii_case("AbC", "aBc"));
    assert!(eq_ignore_ascii_case("", ""));
    assert!(!eq_ignore_ascii_case("abc", "abd"));
    assert!(!eq_ignore_ascii_case("abc", "abcd"));
}
