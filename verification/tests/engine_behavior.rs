//! End-to-end behaviour of the engine: client lifecycle, request
//! registration, cancellation, completion callbacks, and the response
//! stream bridge driven by a mock exchange.

use ktor_impersonate::config::ImpersonateConfig;
use ktor_impersonate::engine::Engine;
use ktor_impersonate::errors::{EngineError, Severity};
use ktor_impersonate::headers::HostHeaders;
use ktor_impersonate::requests::RequestIds;
use ktor_impersonate::source::{get_request_id, ResponseSource};

fn plain_config() -> ImpersonateConfig {
    ImpersonateConfig {
        verbose_logging: false,
        preset: None,
        request_timeout_millis: None,
        connect_timeout_millis: None,
        idle_timeout_millis: None,
        allow_invalid_certificates: None,
        https_only: None,
    }
}

fn no_headers() -> HostHeaders {
    HostHeaders { entries: Vec::new() }
}

#[test]
fn request_ids_are_monotonic_and_nonzero() {
    let mut ids = RequestIds::new();
    assert_eq!(ids.new_request_id(), 1);
    assert_eq!(ids.new_request_id(), 2);
    assert_eq!(ids.new_request_id(), 3);
    assert_eq!(ids.peek(), 4);
}

#[test]
fn scenario_mock_exchange_round() {
    let mut e = Engine::new();
    let h = e.createClient(&plain_config(), false, true).unwrap();
    assert_ne!(h, 0);

    let id = e
        .executeRequest(h, "https://example.test/", "GET", &no_headers(), false)
        .unwrap();
    assert_ne!(id, 0);

    // The completing unit reports status 200 with one header; the payload
    // for onResponse is produced exactly once, here.
    let native = vec![("content-type".to_string(), "text/plain".to_string())];
    let (cb, tx) = e
        .callback_response(id, "HTTP/1.1".to_string(), 200, &native, 16)
        .unwrap();
    let tx = tx.expect("a pending entry takes the body cursor");
    assert_eq!(cb.version, "HTTP/1.1");
    assert_eq!(cb.status, 200);
    assert_eq!(cb.headers.entries.len(), 1);
    assert_eq!(cb.headers.entries[0].0, "content-type");
    assert_eq!(cb.headers.entries[0].1, vec!["text/plain".to_string()]);

    // The mock exchange yields the body in two chunks, then ends.
    tx.send(b"hello ".to_vec()).unwrap();
    tx.send(b"world".to_vec()).unwrap();
    drop(tx);

    let mut src = ResponseSource::new(id);
    assert!(src.init(&e).is_ok());
    assert_eq!(get_request_id(&src), Some(id));

    let mut sink: Vec<u8> = Vec::new();
    assert_eq!(src.readAtMostTo(&mut e, &mut sink, 1).unwrap(), 6);
    assert_eq!(&sink, b"hello ");
    assert_eq!(src.readAtMostTo(&mut e, &mut sink, 1).unwrap(), 5);
    assert_eq!(&sink, b"hello world");
    assert_eq!(src.readAtMostTo(&mut e, &mut sink, 1).unwrap(), -1);
    assert_eq!(get_request_id(&src), None);

    // The registry no longer holds the id: a fresh source bound to it has
    // no body to read.
    let probe = ResponseSource::new(id);
    assert_eq!(probe.init(&e), Err(EngineError::NoBody));
}

#[test]
fn read_with_zero_min_bytes_pulls_one_chunk() {
    let mut e = Engine::new();
    let h = e.createClient(&plain_config(), false, true).unwrap();
    let id = e
        .executeRequest(h, "https://example.test/", "GET", &no_headers(), false)
        .unwrap();
    let (_cb, tx) = e
        .callback_response(id, "HTTP/1.1".to_string(), 200, &Vec::new(), 16)
        .unwrap();
    let tx = tx.unwrap();
    tx.send(b"hello ".to_vec()).unwrap();
    drop(tx);

    let mut src = ResponseSource::new(id);
    let mut sink: Vec<u8> = Vec::new();
    // One pending chunk: the call returns its non-negative byte count.
    let n = src.readAtMostTo(&mut e, &mut sink, 0).unwrap();
    assert_eq!(n, 6);
    assert_eq!(&sink, b"hello ");
}

#[test]
fn read_on_exhausted_source_returns_end_marker() {
    let mut e = Engine::new();
    let h = e.createClient(&plain_config(), false, true).unwrap();
    let id = e
        .executeRequest(h, "https://example.test/", "GET", &no_headers(), false)
        .unwrap();
    let (_cb, tx) = e
        .callback_response(id, "HTTP/1.1".to_string(), 200, &Vec::new(), 16)
        .unwrap();
    // Exchange ends without a single chunk.
    drop(tx.unwrap());

    let mut src = ResponseSource::new(id);
    let mut sink: Vec<u8> = Vec::new();
    // Terminates (rather than blocking) and reports end of stream.
    assert_eq!(src.readAtMostTo(&mut e, &mut sink, 0).unwrap(), -1);
    assert!(sink.is_empty());
    assert_eq!(get_request_id(&src), None);
}

#[test]
fn read_on_closed_source_is_end_of_stream() {
    let mut e = Engine::new();
    let mut src = ResponseSource::new(0);
    let mut sink: Vec<u8> = Vec::new();
    assert_eq!(src.readAtMostTo(&mut e, &mut sink, 10).unwrap(), -1);
    assert!(src.init(&e).is_ok());
}

#[test]
fn cancel_before_completion_removes_entry_and_aborts() {
    let mut e = Engine::new();
    let h = e.createClient(&plain_config(), false, true).unwrap();
    let id = e
        .executeRequest(h, "https://example.test/", "GET", &no_headers(), false)
        .unwrap();
    // The entry is present and still pending: cancel says to invoke the
    // abort capability.
    assert!(e.cancelRequest(id));
    // A completion racing in afterwards finds nothing: no cursor is
    // installed.
    let (_cb, tx) = e
        .callback_response(id, "HTTP/1.1".to_string(), 200, &Vec::new(), 16)
        .unwrap();
    assert!(tx.is_none());
}

#[test]
fn execute_allocates_sequential_ids() {
    let mut e = Engine::new();
    let h = e.createClient(&plain_config(), false, true).unwrap();
    let first = e
        .executeRequest(h, "https://example.test/", "GET", &no_headers(), false)
        .unwrap();
    let second = e
        .executeRequest(h, "https://example.test/", "GET", &no_headers(), false)
        .unwrap();
    assert_eq!(first, 1);
    assert_eq!(second, 2);
}

#[test]
fn cancel_unknown_id_is_silent() {
    let mut e = Engine::new();
    // No entry: no abort signal, no callback, no error.
    assert!(!e.cancelRequest(424242));
}

#[test]
fn cancel_after_streaming_deletes_without_abort() {
    let mut e = Engine::new();
    let h = e.createClient(&plain_config(), false, true).unwrap();
    let id = e
        .executeRequest(h, "https://example.test/", "GET", &no_headers(), false)
        .unwrap();
    let (_cb, tx) = e
        .callback_response(id, "HTTP/1.1".to_string(), 200, &Vec::new(), 16)
        .unwrap();
    assert!(tx.is_some());
    // The abort capability was consumed by the transition: deletion only.
    assert!(!e.cancelRequest(id));
    let probe = ResponseSource::new(id);
    assert_eq!(probe.init(&e), Err(EngineError::NoBody));
}

#[test]
fn double_completion_is_a_fatal_error() {
    let mut e = Engine::new();
    let h = e.createClient(&plain_config(), false, true).unwrap();
    let id = e
        .executeRequest(h, "https://example.test/", "GET", &no_headers(), false)
        .unwrap();
    let first = e.callback_response(id, "HTTP/1.1".to_string(), 200, &Vec::new(), 16);
    assert!(first.is_ok());
    // A second completion for the same id finds the entry already
    // streaming: an unreachable transition.
    let second = e.callback_response(id, "HTTP/1.1".to_string(), 200, &Vec::new(), 16);
    assert!(matches!(second, Err(EngineError::BrokenState)));
    assert_eq!(EngineError::BrokenState.severity(), Severity::Fatal);
}

#[test]
fn reading_a_pending_body_is_a_fatal_error() {
    let mut e = Engine::new();
    let h = e.createClient(&plain_config(), false, true).unwrap();
    let id = e
        .executeRequest(h, "https://example.test/", "GET", &no_headers(), false)
        .unwrap();
    // No completion yet: the body stream was never installed.
    let mut src = ResponseSource::new(id);
    assert_eq!(src.init(&e), Err(EngineError::NoBody));
    let mut sink: Vec<u8> = Vec::new();
    assert_eq!(
        src.readAtMostTo(&mut e, &mut sink, 1),
        Err(EngineError::BrokenState)
    );
}

#[test]
fn destroy_client_is_idempotent() {
    let mut e = Engine::new();
    let h = e.createClient(&plain_config(), false, true).unwrap();
    e.destroyClient(h);
    // Second destroy of the same handle is a no-op, as is destroying the
    // reserved zero handle or a never-issued one.
    e.destroyClient(h);
    e.destroyClient(0);
    e.destroyClient(999);
    // The destroyed handle no longer executes.
    let r = e.executeRequest(h, "https://example.test/", "GET", &no_headers(), false);
    assert_eq!(r, Err(EngineError::ClientClosed));
}

#[test]
fn execute_on_zero_handle_is_runtime_error() {
    let mut e = Engine::new();
    let r = e.executeRequest(0, "https://example.test/", "GET", &no_headers(), false);
    assert_eq!(r, Err(EngineError::ClientClosed));
    assert_eq!(EngineError::ClientClosed.severity(), Severity::Runtime);
    assert_eq!(EngineError::ClientClosed.message(), "Client is already closed!");
}

#[test]
fn execute_rejects_bad_url_and_method() {
    let mut e = Engine::new();
    let h = e.createClient(&plain_config(), false, true).unwrap();
    let bad_url = e.executeRequest(h, "not a url", "GET", &no_headers(), false);
    assert_eq!(bad_url, Err(EngineError::BadUrl));
    assert_eq!(EngineError::BadUrl.severity(), Severity::Argument);
    let bad_method = e.executeRequest(h, "https://example.test/", "", &no_headers(), false);
    assert_eq!(bad_method, Err(EngineError::BadMethod));
    assert_eq!(
        EngineError::BadMethod.message(),
        "HTTP method cannot be of 0 length"
    );
    // Both checks pass on ordinary input.
    assert!(e
        .executeRequest(h, "https://example.test/", "POST", &no_headers(), false)
        .is_ok());
}

#[test]
fn execute_rejects_invalid_headers() {
    let mut e = Engine::new();
    let h = e.createClient(&plain_config(), false, true).unwrap();
    let bad_name = HostHeaders {
        entries: vec![("bad name".to_string(), vec!["v".to_string()])],
    };
    assert_eq!(
        e.executeRequest(h, "https://example.test/", "GET", &bad_name, false),
        Err(EngineError::BadHeaderName)
    );
    let bad_value = HostHeaders {
        entries: vec![("accept".to_string(), vec!["a\nb".to_string()])],
    };
    assert_eq!(
        e.executeRequest(h, "https://example.test/", "GET", &bad_value, false),
        Err(EngineError::BadHeaderValue)
    );
}

#[test]
fn create_client_validates_configuration() {
    let mut e = Engine::new();
    let mut cfg = plain_config();
    cfg.request_timeout_millis = Some(-5);
    assert_eq!(
        e.createClient(&cfg, false, true),
        Err(EngineError::BadDuration)
    );
    let mut cfg = plain_config();
    cfg.preset = Some("no_such_browser".to_string());
    // The client library does not recognise the profile name.
    assert_eq!(
        e.createClient(&cfg, false, true),
        Err(EngineError::UnknownPreset)
    );
    // A recognised profile passes.
    assert!(e.createClient(&cfg, true, true).is_ok());
    // Trust-store acquisition failure is a runtime error.
    assert_eq!(
        e.createClient(&plain_config(), false, false),
        Err(EngineError::CertStoreFailed)
    );
    assert_eq!(EngineError::CertStoreFailed.severity(), Severity::Runtime);
}

#[test]
fn error_callback_removes_entry_and_formats_message() {
    let mut e = Engine::new();
    let h = e.createClient(&plain_config(), false, true).unwrap();
    let id = e
        .executeRequest(h, "https://example.test/", "GET", &no_headers(), false)
        .unwrap();
    let msg = e.callback_request_error(id, "connection reset");
    assert_eq!(msg, "Failed to execute request: connection reset");
    let probe = ResponseSource::new(id);
    assert_eq!(probe.init(&e), Err(EngineError::NoBody));
    // And the id is gone: cancelling it now signals nothing.
    assert!(!e.cancelRequest(id));
}

#[test]
fn close_clears_binding_and_registry_idempotently() {
    let mut e = Engine::new();
    let h = e.createClient(&plain_config(), false, true).unwrap();
    let id = e
        .executeRequest(h, "https://example.test/", "GET", &no_headers(), false)
        .unwrap();
    let (_cb, tx) = e
        .callback_response(id, "HTTP/1.1".to_string(), 200, &Vec::new(), 16)
        .unwrap();
    drop(tx);
    let mut src = ResponseSource::new(id);
    src.close(&mut e);
    assert_eq!(get_request_id(&src), None);
    // Closing again is harmless.
    src.close(&mut e);
    let probe = ResponseSource::new(id);
    assert_eq!(probe.init(&e), Err(EngineError::NoBody));
}
