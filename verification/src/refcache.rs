//! The reference cache: process-wide store of resolved host-side symbol
//! handles (classes, methods, fields) the native code needs to call back
//! into the host.
//!
//! Strict lifecycle: every entry is resolved at library load
//! ([`RefCache::init_cache`]) — a single resolution failure aborts the
//! load; entries are read-many while ready; everything is cleared at
//! library unload ([`RefCache::release_cache`]), member symbols strictly
//! before the classes that own them, since unloading a class invalidates
//! its member handles.  Reading an entry before init completes or after
//! release begins is a fatal usage error — never a stale or default value.

use vstd::prelude::*;
use crate::errors::EngineError;

verus! {

/// Every host-side symbol the native code resolves: exception classes for
/// signalling, the callback class with its two methods, the stream class
/// with its bound-id field, and the sink class with its write method.
#[derive(Clone, Copy, Debug, PartialEq, Eq, Structural)]
pub enum Symbol {
    IllegalArgumentException,
    RuntimeException,
    NativeCallbacks,
    OnResponse,
    OnError,
    ResponseSource,
    RequestIdField,
    Sink,
    SinkWrite,
}

/// The class a member symbol (method or field) belongs to; `None` for a
/// class symbol itself.
pub open spec fn owner_of(s: Symbol) -> Option<Symbol> {
    match s {
        Symbol::OnResponse => Some(Symbol::NativeCallbacks),
        Symbol::OnError => Some(Symbol::NativeCallbacks),
        Symbol::RequestIdField => Some(Symbol::ResponseSource),
        Symbol::SinkWrite => Some(Symbol::Sink),
        _ => None,
    }
}

/// What the host resolved for each symbol at load time: `None` where
/// resolution failed.  Handles are the host's opaque references, carried
/// as plain words.
pub struct ResolvedSymbols {
    pub illegal_argument_exception: Option<u64>,
    pub runtime_exception: Option<u64>,
    pub native_callbacks: Option<u64>,
    pub on_response: Option<u64>,
    pub on_error: Option<u64>,
    pub response_source: Option<u64>,
    pub request_id_field: Option<u64>,
    pub sink: Option<u64>,
    pub sink_write: Option<u64>,
}

impl ResolvedSymbols {
    pub open spec fn value_of(&self, s: Symbol) -> Option<u64> {
        match s {
            Symbol::IllegalArgumentException => self.illegal_argument_exception,
            Symbol::RuntimeException => self.runtime_exception,
            Symbol::NativeCallbacks => self.native_callbacks,
            Symbol::OnResponse => self.on_response,
            Symbol::OnError => self.on_error,
            Symbol::ResponseSource => self.response_source,
            Symbol::RequestIdField => self.request_id_field,
            Symbol::Sink => self.sink,
            Symbol::SinkWrite => self.sink_write,
        }
    }

    /// Every symbol resolved.
    pub open spec fn complete(&self) -> bool {
        forall|s: Symbol| (#[trigger] self.value_of(s)) is Some
    }
}

/// Where the cache stands in its lifecycle.
#[derive(Clone, Copy, Debug, PartialEq, Eq, Structural)]
pub enum CachePhase {
    /// Before init completes: nothing may be read.
    Empty,
    /// The window in which entries may be read.
    Ready,
    /// After release has begun: nothing may be read again.
    Released,
}

/// The cache itself: one handle per symbol, meaningful only while `Ready`.
pub struct RefCache {
    phase: CachePhase,
    illegal_argument_exception: u64,
    runtime_exception: u64,
    native_callbacks: u64,
    on_response: u64,
    on_error: u64,
    response_source: u64,
    request_id_field: u64,
    sink: u64,
    sink_write: u64,
}

/// The order in which release clears the handles: the members of each
/// class first, then the class itself, then the free-standing exception
/// classes.
pub open spec fn teardown_order() -> Seq<Symbol> {
    seq![
        Symbol::OnResponse,
        Symbol::OnError,
        Symbol::NativeCallbacks,
        Symbol::RequestIdField,
        Symbol::ResponseSource,
        Symbol::SinkWrite,
        Symbol::Sink,
        Symbol::IllegalArgumentException,
        Symbol::RuntimeException,
    ]
}

impl RefCache {
    pub closed spec fn phase(&self) -> CachePhase {
        self.phase
    }

    /// The stored handle for a symbol (meaningful only while `Ready`).
    pub closed spec fn handle_of(&self, s: Symbol) -> u64 {
        match s {
            Symbol::IllegalArgumentException => self.illegal_argument_exception,
            Symbol::RuntimeException => self.runtime_exception,
            Symbol::NativeCallbacks => self.native_callbacks,
            Symbol::OnResponse => self.on_response,
            Symbol::OnError => self.on_error,
            Symbol::ResponseSource => self.response_source,
            Symbol::RequestIdField => self.request_id_field,
            Symbol::Sink => self.sink,
            Symbol::SinkWrite => self.sink_write,
        }
    }

    pub fn new() -> (c: RefCache)
        ensures
            c.phase() is Empty,
    {
        RefCache {
            phase: CachePhase::Empty,
            illegal_argument_exception: 0,
            runtime_exception: 0,
            native_callbacks: 0,
            on_response: 0,
            on_error: 0,
            response_source: 0,
            request_id_field: 0,
            sink: 0,
            sink_write: 0,
        }
    }

    /// Installs the handles the host resolved at library load.  Succeeds —
    /// opening the read window — exactly when every symbol resolved; a
    /// single failure aborts the load (the embedder receives a failure
    /// code) and the cache stays unreadable.
    pub fn init_cache(&mut self, resolved: &ResolvedSymbols) -> (ok: bool)
        requires
            old(self).phase() is Empty,
        ensures
            ok <==> resolved.complete(),
            ok ==> final(self).phase() is Ready && forall|s: Symbol|
                Some(#[trigger] final(self).handle_of(s)) == resolved.value_of(s),
            !ok ==> *final(self) == *old(self),
    {
        let all = resolved.illegal_argument_exception.is_some()
            && resolved.runtime_exception.is_some() && resolved.native_callbacks.is_some()
            && resolved.on_response.is_some() && resolved.on_error.is_some()
            && resolved.response_source.is_some() && resolved.request_id_field.is_some()
            && resolved.sink.is_some() && resolved.sink_write.is_some();
        if !all {
            proof {
                assert(!resolved.complete()) by {
                    if resolved.complete() {
                        assert(resolved.value_of(Symbol::IllegalArgumentException) is Some);
                        assert(resolved.value_of(Symbol::RuntimeException) is Some);
                        assert(resolved.value_of(Symbol::NativeCallbacks) is Some);
                        assert(resolved.value_of(Symbol::OnResponse) is Some);
                        assert(resolved.value_of(Symbol::OnError) is Some);
                        assert(resolved.value_of(Symbol::ResponseSource) is Some);
                        assert(resolved.value_of(Symbol::RequestIdField) is Some);
                        assert(resolved.value_of(Symbol::Sink) is Some);
                        assert(resolved.value_of(Symbol::SinkWrite) is Some);
                    }
                }
            }
            return false;
        }
        self.illegal_argument_exception = resolved.illegal_argument_exception.unwrap();
        self.runtime_exception = resolved.runtime_exception.unwrap();
        self.native_callbacks = resolved.native_callbacks.unwrap();
        self.on_response = resolved.on_response.unwrap();
        self.on_error = resolved.on_error.unwrap();
        self.response_source = resolved.response_source.unwrap();
        self.request_id_field = resolved.request_id_field.unwrap();
        self.sink = resolved.sink.unwrap();
        self.sink_write = resolved.sink_write.unwrap();
        self.phase = CachePhase::Ready;
        proof {
            assert forall|s: Symbol| Some(#[trigger] self.handle_of(s)) == resolved.value_of(s) by {
                match s {
                    Symbol::IllegalArgumentException => {},
                    Symbol::RuntimeException => {},
                    Symbol::NativeCallbacks => {},
                    Symbol::OnResponse => {},
                    Symbol::OnError => {},
                    Symbol::ResponseSource => {},
                    Symbol::RequestIdField => {},
                    Symbol::Sink => {},
                    Symbol::SinkWrite => {},
                }
            }
        }
        true
    }

    /// Reads a cache entry.  Outside the `[init complete, release begun)`
    /// window this is a fatal usage error — the design deliberately never
    /// hands back a default or stale value.
    pub fn lookup(&self, s: Symbol) -> (r: Result<u64, EngineError>)
        ensures
            self.phase() is Ready ==> r == Ok::<u64, EngineError>(self.handle_of(s)),
            !(self.phase() is Ready) ==> r == Err::<u64, EngineError>(
                EngineError::CacheUnavailable,
            ),
    {
        match self.phase {
            CachePhase::Ready => Ok(
                match s {
                    Symbol::IllegalArgumentException => self.illegal_argument_exception,
                    Symbol::RuntimeException => self.runtime_exception,
                    Symbol::NativeCallbacks => self.native_callbacks,
                    Symbol::OnResponse => self.on_response,
                    Symbol::OnError => self.on_error,
                    Symbol::ResponseSource => self.response_source,
                    Symbol::RequestIdField => self.request_id_field,
                    Symbol::Sink => self.sink,
                    Symbol::SinkWrite => self.sink_write,
                },
            ),
            _ => Err(EngineError::CacheUnavailable),
        }
    }

    /// Begins release at library unload: the read window closes, every
    /// handle is dropped, and the returned sequence tells the embedder the
    /// order in which to delete the host references — each member before
    /// the class that owns it (see [`lemma_teardown_member_before_owner`]).
    pub fn release_cache(&mut self) -> (order: Vec<Symbol>)
        ensures
            final(self).phase() is Released,
            order@ == teardown_order(),
    {
        self.phase = CachePhase::Released;
        self.illegal_argument_exception = 0;
        self.runtime_exception = 0;
        self.native_callbacks = 0;
        self.on_response = 0;
        self.on_error = 0;
        self.response_source = 0;
        self.request_id_field = 0;
        self.sink = 0;
        self.sink_write = 0;
        let mut order: Vec<Symbol> = Vec::new();
        order.push(Symbol::OnResponse);
        order.push(Symbol::OnError);
        order.push(Symbol::NativeCallbacks);
        order.push(Symbol::RequestIdField);
        order.push(Symbol::ResponseSource);
        order.push(Symbol::SinkWrite);
        order.push(Symbol::Sink);
        order.push(Symbol::IllegalArgumentException);
        order.push(Symbol::RuntimeException);
        proof {
            assert(order@ =~= teardown_order());
        }
        order
    }
}

/// Teardown-order law: in the release sequence, every member symbol stands
/// strictly before the class that owns it, so no member handle can dangle
/// from a class the host has already been told to drop.  The sequence also
/// covers every symbol exactly once.
pub proof fn lemma_teardown_member_before_owner()
    ensures
        forall|i: int, j: int|
            0 <= i < teardown_order().len() && 0 <= j < teardown_order().len() && owner_of(
                #[trigger] teardown_order()[i],
            ) == Some(#[trigger] teardown_order()[j]) ==> i < j,
        forall|s: Symbol| #[trigger] teardown_order().contains(s),
        teardown_order().no_duplicates(),
{
    let ord = teardown_order();
    assert(ord[0] == Symbol::OnResponse);
    assert(ord[1] == Symbol::OnError);
    assert(ord[2] == Symbol::NativeCallbacks);
    assert(ord[3] == Symbol::RequestIdField);
    assert(ord[4] == Symbol::ResponseSource);
    assert(ord[5] == Symbol::SinkWrite);
    assert(ord[6] == Symbol::Sink);
    assert(ord[7] == Symbol::IllegalArgumentException);
    assert(ord[8] == Symbol::RuntimeException);
    assert forall|s: Symbol| #[trigger] teardown_order().contains(s) by {
        match s {
            Symbol::OnResponse => assert(teardown_order()[0] == s),
            Symbol::OnError => assert(teardown_order()[1] == s),
            Symbol::NativeCallbacks => assert(teardown_order()[2] == s),
            Symbol::RequestIdField => assert(teardown_order()[3] == s),
            Symbol::ResponseSource => assert(teardown_order()[4] == s),
            Symbol::SinkWrite => assert(teardown_order()[5] == s),
            Symbol::Sink => assert(teardown_order()[6] == s),
            Symbol::IllegalArgumentException => assert(teardown_order()[7] == s),
            Symbol::RuntimeException => assert(teardown_order()[8] == s),
        }
    }
}

} // verus!
