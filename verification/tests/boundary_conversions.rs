//! Header conversion across the boundary, the reference cache lifecycle,
//! configuration validation, and the certificate store decisions.

use ktor_impersonate::certs::{build_store, get_cached_verify_store, StorePlan};
use ktor_impersonate::config::{apply_jni_config, ImpersonateConfig};
use ktor_impersonate::errors::{EngineError, Severity};
use ktor_impersonate::headers::{headers_to_jni, jni_to_headers, HostHeaders};
use ktor_impersonate::refcache::{RefCache, ResolvedSymbols, Symbol};

fn resolved_all() -> ResolvedSymbols {
    ResolvedSymbols {
        illegal_argument_exception: Some(11),
        runtime_exception: Some(12),
        native_callbacks: Some(13),
        on_response: Some(14),
        on_error: Some(15),
        response_source: Some(16),
        request_id_field: Some(17),
        sink: Some(18),
        sink_write: Some(19),
    }
}

#[test]
fn header_round_trip_preserves_values_and_order() {
    let host = HostHeaders {
        entries: vec![(
            "Set-Cookie".to_string(),
            vec!["a=1".to_string(), "b=2".to_string()],
        )],
    };
    let pairs = jni_to_headers(&host).unwrap();
    assert_eq!(
        pairs,
        vec![
            ("Set-Cookie".to_string(), "a=1".to_string()),
            ("Set-Cookie".to_string(), "b=2".to_string()),
        ]
    );
    let back = headers_to_jni(&pairs);
    assert_eq!(back.entries.len(), 1);
    assert_eq!(back.entries[0].0, "Set-Cookie");
    assert_eq!(back.entries[0].1, vec!["a=1".to_string(), "b=2".to_string()]);
}

#[test]
fn header_round_trip_multiple_names() {
    let host = HostHeaders {
        entries: vec![
            ("accept".to_string(), vec!["text/html".to_string()]),
            (
                "set-cookie".to_string(),
                vec!["a=1".to_string(), "b=2".to_string()],
            ),
            ("host".to_string(), vec!["example.test".to_string()]),
        ],
    };
    let pairs = jni_to_headers(&host).unwrap();
    assert_eq!(pairs.len(), 4);
    let back = headers_to_jni(&pairs);
    assert_eq!(back.entries.len(), 3);
    assert_eq!(back.entries[0].0, "accept");
    assert_eq!(back.entries[1].0, "set-cookie");
    assert_eq!(
        back.entries[1].1,
        vec!["a=1".to_string(), "b=2".to_string()]
    );
    assert_eq!(back.entries[2].0, "host");
}

#[test]
fn grouping_merges_separated_repeats_of_a_name() {
    // Pairs of the same name need not be adjacent: values join the first
    // entry for the name, in arrival order.
    let pairs = vec![
        ("a".to_string(), "1".to_string()),
        ("b".to_string(), "2".to_string()),
        ("a".to_string(), "3".to_string()),
    ];
    let host = headers_to_jni(&pairs);
    assert_eq!(host.entries.len(), 2);
    assert_eq!(host.entries[0].0, "a");
    assert_eq!(host.entries[0].1, vec!["1".to_string(), "3".to_string()]);
    assert_eq!(host.entries[1].0, "b");
    assert_eq!(host.entries[1].1, vec!["2".to_string()]);
}

#[test]
fn invalid_header_name_and_value_are_rejected() {
    let bad_name = HostHeaders {
        entries: vec![("no spaces allowed".to_string(), vec!["v".to_string()])],
    };
    assert_eq!(jni_to_headers(&bad_name), Err(EngineError::BadHeaderName));
    let bad_value = HostHeaders {
        entries: vec![("accept".to_string(), vec!["line\nbreak".to_string()])],
    };
    assert_eq!(jni_to_headers(&bad_value), Err(EngineError::BadHeaderValue));
    // The name is checked before the values of the same entry.
    let both_bad = HostHeaders {
        entries: vec![("no spaces allowed".to_string(), vec!["line\nbreak".to_string()])],
    };
    assert_eq!(jni_to_headers(&both_bad), Err(EngineError::BadHeaderName));
}

#[test]
fn reference_cache_window_is_strict() {
    let mut cache = RefCache::new();
    // Before init completes: fatal, never a default value.
    assert_eq!(
        cache.lookup(Symbol::OnResponse),
        Err(EngineError::CacheUnavailable)
    );
    assert_eq!(
        EngineError::CacheUnavailable.severity(),
        Severity::Fatal
    );
    assert!(cache.init_cache(&resolved_all()));
    assert_eq!(cache.lookup(Symbol::OnResponse), Ok(14));
    assert_eq!(cache.lookup(Symbol::Sink), Ok(18));
    let order = cache.release_cache();
    // After release begins: fatal again.
    assert_eq!(
        cache.lookup(Symbol::OnResponse),
        Err(EngineError::CacheUnavailable)
    );
    // Members are torn down strictly before the classes that own them.
    let pos = |s: Symbol| order.iter().position(|x| *x == s).unwrap();
    assert!(pos(Symbol::OnResponse) < pos(Symbol::NativeCallbacks));
    assert!(pos(Symbol::OnError) < pos(Symbol::NativeCallbacks));
    assert!(pos(Symbol::RequestIdField) < pos(Symbol::ResponseSource));
    assert!(pos(Symbol::SinkWrite) < pos(Symbol::Sink));
    assert_eq!(order.len(), 9);
}

#[test]
fn reference_cache_init_fails_on_any_missing_symbol() {
    let mut cache = RefCache::new();
    let mut partial = resolved_all();
    partial.sink_write = None;
    assert!(!cache.init_cache(&partial));
    // Still unreadable: the failed load never opens the window.
    assert_eq!(
        cache.lookup(Symbol::SinkWrite),
        Err(EngineError::CacheUnavailable)
    );
}

#[test]
fn config_validation_converts_and_rejects() {
    let cfg = ImpersonateConfig {
        verbose_logging: true,
        preset: Some("chrome_120".to_string()),
        request_timeout_millis: Some(2500),
        connect_timeout_millis: Some(0),
        idle_timeout_millis: None,
        allow_invalid_certificates: Some(true),
        https_only: Some(false),
    };
    let s = apply_jni_config(&cfg, true).unwrap();
    assert!(s.verbose_logging);
    assert_eq!(s.preset, Some("chrome_120".to_string()));
    assert_eq!(s.request_timeout_millis, Some(2500));
    assert_eq!(s.connect_timeout_millis, Some(0));
    assert_eq!(s.idle_timeout_millis, None);
    assert_eq!(s.allow_invalid_certificates, Some(true));
    assert_eq!(s.https_only, Some(false));

    let mut bad = cfg;
    bad.connect_timeout_millis = Some(-1);
    assert_eq!(apply_jni_config(&bad, true), Err(EngineError::BadDuration));
    assert_eq!(
        EngineError::BadDuration.message(),
        "Timeout duration cannot be negative"
    );
}

#[test]
fn store_rules_reject_all_invalid_certificates() {
    assert_eq!(build_store(&vec![]), Ok(0));
    assert_eq!(build_store(&vec![true, false, true]), Ok(2));
    assert_eq!(
        build_store(&vec![false, false]),
        Err(EngineError::CertStoreFailed)
    );
    assert_eq!(
        EngineError::CertStoreFailed.message(),
        "Failed to load certificates"
    );
}

#[test]
fn verify_store_falls_back_only_without_cache() {
    assert_eq!(
        get_cached_verify_store(None),
        Ok(StorePlan::DefaultPaths)
    );
    assert_eq!(
        get_cached_verify_store(Some(&vec![true, true])),
        Ok(StorePlan::FromCached(2))
    );
    assert_eq!(
        get_cached_verify_store(Some(&vec![true, false])),
        Err(EngineError::CertStoreFailed)
    );
}
