//! The engine: client handle table, request registry, scheduler-facing
//! decisions, and the completion callbacks' state transitions.
//!
//! Every entry point is a synchronous decision over explicit state.  The
//! unverified rim owns the worker pool and the wire: it calls
//! [`Engine::executeRequest`] to register a request before spawning the
//! exchange, [`Engine::callback_response`] / [`Engine::callback_request_error`]
//! from the completing unit, and [`Engine::cancelRequest`] when the host
//! cancels — performing the abort action exactly when the engine says the
//! cancel capability was still held.

use vstd::prelude::*;
use std::collections::HashMap;
use crate::config::{apply_jni_config, config_error, settings_of, ClientSettings, ImpersonateConfig};
use crate::errors::EngineError;
use crate::headers::{host_error, group_pairs, pairs_view, jni_to_headers, headers_to_jni, HostHeaders};
use crate::outside::{new_body_channel, parse_method_ok, parse_url_ok, method_parse_ok, url_parse_ok};
use crate::requests::{RequestIds, RequestTask};
use vstd::string::StringExecFns;

verus! {

broadcast use vstd::std_specs::hash::group_hash_axioms;

/// The payload of a successful completion, delivered to the host's
/// `onResponse` callback: protocol version, status code, and the response
/// headers in the host's multi-valued form.  The body is withheld; it is
/// delivered only through later bridge reads.
pub struct ResponseCallback {
    pub version: String,
    pub status: u16,
    pub headers: HostHeaders,
}

/// The process-wide engine state: the client handle table and the registry
/// of in-flight requests.  The unverified rim holds one engine behind a
/// process lock and calls into it from arbitrary host threads.
pub struct Engine {
    clients: HashMap<u64, ClientSettings>,
    next_handle: u64,
    requests: HashMap<u32, RequestTask>,
    ids: RequestIds,
}

impl Engine {
    /// The registered clients, by handle.
    pub closed spec fn clients(&self) -> Map<u64, ClientSettings> {
        self.clients@
    }

    /// The in-flight requests, by id.
    pub closed spec fn requests(&self) -> Map<u32, RequestTask> {
        self.requests@
    }

    /// The id the next execute call will allocate.
    pub closed spec fn next_id(&self) -> u32 {
        self.ids.spec_next()
    }

    /// The handle the next create call will allocate.
    pub closed spec fn spec_next_handle(&self) -> u64 {
        self.next_handle
    }

    /// Well-formedness: zero is never a live handle or id, and handles grow
    /// below the allocation counter.
    pub closed spec fn wf(&self) -> bool {
        &&& self.next_handle >= 1
        &&& self.ids.spec_next() != 0
        &&& !self.clients@.contains_key(0)
        &&& !self.requests@.contains_key(0)
        &&& forall|h: u64| #[trigger] self.clients@.contains_key(h) ==> h < self.next_handle
    }

    pub fn new() -> (e: Engine)
        ensures
            e.wf(),
            e.clients() == Map::<u64, ClientSettings>::empty(),
            e.requests() == Map::<u32, RequestTask>::empty(),
            e.next_id() == 1u32,
            e.spec_next_handle() == 1u64,
    {
        Engine {
            clients: HashMap::new(),
            next_handle: 1,
            requests: HashMap::new(),
            ids: RequestIds::new(),
        }
    }

    /// The failure a create call produces, if any, in the order the checks
    /// run: configuration validation, then trust-store acquisition, then
    /// handle allocation.
    pub open spec fn create_error(
        self,
        config: ImpersonateConfig,
        preset_known: bool,
        store_ok: bool,
    ) -> Option<EngineError> {
        if config_error(config, preset_known) is Some {
            config_error(config, preset_known)
        } else if !store_ok {
            Some(EngineError::CertStoreFailed)
        } else if self.spec_next_handle() == u64::MAX {
            Some(EngineError::BrokenState)
        } else {
            None
        }
    }

    /// Builds a client from the host configuration plus the trust store's
    /// availability (`store_ok` is the certificate provider's verdict,
    /// `preset_known` the client library's verdict on the profile name) and
    /// registers it under a fresh nonzero handle.  Signals an argument
    /// error on a malformed configuration and a runtime error when the
    /// trust store could not be obtained, registering nothing.
    pub fn createClient(
        &mut self,
        config: &ImpersonateConfig,
        preset_known: bool,
        store_ok: bool,
    ) -> (r: Result<u64, EngineError>)
        requires
            old(self).wf(),
        ensures
            final(self).wf(),
            final(self).requests() == old(self).requests(),
            final(self).next_id() == old(self).next_id(),
            match r {
                Ok(h) => {
                    &&& old(self).create_error(*config, preset_known, store_ok) is None
                    &&& h != 0
                    &&& h == old(self).spec_next_handle()
                    &&& !old(self).clients().contains_key(h)
                    &&& final(self).clients() == old(self).clients().insert(
                        h,
                        settings_of(*config),
                    )
                    &&& final(self).spec_next_handle() == h + 1
                },
                Err(e) => {
                    &&& Some(e) == old(self).create_error(*config, preset_known, store_ok)
                    &&& final(self).clients() == old(self).clients()
                    &&& final(self).spec_next_handle() == old(self).spec_next_handle()
                },
            },
    {
        let settings = match apply_jni_config(config, preset_known) {
            Ok(s) => s,
            Err(e) => {
                return Err(e);
            },
        };
        if !store_ok {
            return Err(EngineError::CertStoreFailed);
        }
        if self.next_handle == u64::MAX {
            return Err(EngineError::BrokenState);
        }
        let h = self.next_handle;
        self.next_handle = self.next_handle + 1;
        self.clients.insert(h, settings);
        Ok(h)
    }

    /// Releases the client behind `handle` and drops the registry's
    /// reference to it.  A zero, unknown or already-destroyed handle is a
    /// no-op, which makes a repeated destroy harmless.
    pub fn destroyClient(&mut self, handle: u64)
        requires
            old(self).wf(),
        ensures
            final(self).wf(),
            final(self).clients() == old(self).clients().remove(handle),
            final(self).requests() == old(self).requests(),
            final(self).next_id() == old(self).next_id(),
            final(self).spec_next_handle() == old(self).spec_next_handle(),
    {
        self.clients.remove(&handle);
    }

    /// The failure an execute call produces, if any, in the order the
    /// checks run: the client handle, the url, the method, the headers,
    /// then id allocation.
    pub open spec fn execute_error(
        self,
        handle: u64,
        url: Seq<char>,
        method: Seq<char>,
        headers: Seq<(Seq<char>, Seq<Seq<char>>)>,
    ) -> Option<EngineError> {
        if handle == 0 || !self.clients().contains_key(handle) {
            Some(EngineError::ClientClosed)
        } else if !url_parse_ok(url) {
            Some(EngineError::BadUrl)
        } else if !method_parse_ok(method) {
            Some(EngineError::BadMethod)
        } else if host_error(headers) is Some {
            host_error(headers)
        } else if self.requests().contains_key(self.next_id()) {
            Some(EngineError::BrokenState)
        } else {
            None
        }
    }

    /// Validates the call, allocates a fresh request id, and registers a
    /// `Pending` entry holding the cancel capability — before returning, so
    /// that a cancel arriving right after the id is handed out finds the
    /// entry.  The caller then spawns the exchange for this id.  Fails with
    /// a runtime error on a dead handle and an argument error on a
    /// malformed url, method or header, registering nothing.
    pub fn executeRequest(
        &mut self,
        handle: u64,
        url: &str,
        method: &str,
        headers: &HostHeaders,
        is_stream: bool,
    ) -> (r: Result<u32, EngineError>)
        requires
            old(self).wf(),
            !is_stream,
        ensures
            final(self).wf(),
            final(self).clients() == old(self).clients(),
            final(self).spec_next_handle() == old(self).spec_next_handle(),
            match r {
                Ok(id) => {
                    &&& old(self).execute_error(handle, url@, method@, headers@) is None
                    &&& id == old(self).next_id()
                    &&& id != 0
                    &&& !old(self).requests().contains_key(id)
                    &&& final(self).requests() == old(self).requests().insert(
                        id,
                        RequestTask::Pending { abort: true },
                    )
                    &&& final(self).next_id() == (if id == u32::MAX {
                        1u32
                    } else {
                        (id + 1) as u32
                    })
                },
                Err(e) => {
                    &&& Some(e) == old(self).execute_error(handle, url@, method@, headers@)
                    &&& final(self).requests() == old(self).requests()
                    &&& final(self).next_id() == old(self).next_id()
                },
            },
    {
        if handle == 0 {
            return Err(EngineError::ClientClosed);
        }
        if !self.clients.contains_key(&handle) {
            return Err(EngineError::ClientClosed);
        }
        if !parse_url_ok(url) {
            return Err(EngineError::BadUrl);
        }
        if !parse_method_ok(method) {
            return Err(EngineError::BadMethod);
        }
        // The conversion here only validates; the caller converts again
        // when it hands the pairs to the exchange it spawns.
        match jni_to_headers(headers) {
            Ok(_) => {},
            Err(e) => {
                return Err(e);
            },
        }
        let id = self.ids.peek();
        if self.requests.contains_key(&id) {
            return Err(EngineError::BrokenState);
        }
        let id = self.ids.new_request_id();
        self.requests.insert(id, RequestTask::Pending { abort: true });
        Ok(id)
    }

    /// Removes the registry entry for `request_id`, if present, and reports
    /// whether the caller must invoke the cancel capability: exactly when
    /// the removed entry was still `Pending` with the capability held.  An
    /// unknown id is a no-op producing no signal; an entry already
    /// `Streaming` is simply deleted, orphaning its cursor.
    pub fn cancelRequest(&mut self, request_id: u32) -> (abort: bool)
        requires
            old(self).wf(),
        ensures
            final(self).wf(),
            final(self).requests() == old(self).requests().remove(request_id),
            final(self).clients() == old(self).clients(),
            final(self).next_id() == old(self).next_id(),
            final(self).spec_next_handle() == old(self).spec_next_handle(),
            abort == (old(self).requests().contains_key(request_id)
                && old(self).requests()[request_id] matches RequestTask::Pending { abort: true }),
    {
        match self.requests.remove(&request_id) {
            Some(RequestTask::Pending { abort }) => abort,
            _ => false,
        }
    }

    /// The completing unit's success path.  Converts the response headers
    /// to the host form and yields the `onResponse` payload; if the entry
    /// is still registered (not cancelled meanwhile), performs the one-time
    /// `Pending` to `Streaming` transition, installing a fresh body cursor
    /// and returning the sending half for the exchange worker to fill,
    /// `capacity` chunks deep.  A missing entry yields the payload with no
    /// sender — the accepted completion/cancel race.  Finding the entry
    /// already `Streaming` is an unreachable transition and fails fatally.
    pub fn callback_response(
        &mut self,
        request_id: u32,
        version: String,
        status: u16,
        headers: &Vec<(String, String)>,
        capacity: usize,
    ) -> (r: Result<(ResponseCallback, Option<std::sync::mpsc::SyncSender<Vec<u8>>>), EngineError>)
        requires
            old(self).wf(),
        ensures
            final(self).wf(),
            final(self).clients() == old(self).clients(),
            final(self).next_id() == old(self).next_id(),
            final(self).spec_next_handle() == old(self).spec_next_handle(),
            match r {
                Ok((cb, tx)) => {
                    &&& cb.version == version
                    &&& cb.status == status
                    &&& cb.headers@ == group_pairs(pairs_view(headers@))
                    &&& if old(self).requests().contains_key(request_id) {
                        &&& old(self).requests()[request_id] matches RequestTask::Pending { .. }
                        &&& tx is Some
                        &&& final(self).requests().dom() == old(self).requests().dom()
                        &&& final(self).requests()[request_id] matches RequestTask::Streaming { .. }
                        &&& forall|k: u32|
                            #![trigger final(self).requests()[k]]
                            k != request_id && old(self).requests().contains_key(k)
                                ==> final(self).requests()[k] == old(self).requests()[k]
                    } else {
                        &&& tx is None
                        &&& final(self).requests() == old(self).requests()
                    }
                },
                Err(e) => {
                    &&& e == EngineError::BrokenState
                    &&& old(self).requests().contains_key(request_id)
                    &&& old(self).requests()[request_id] matches RequestTask::Streaming { .. }
                    &&& final(self).requests() == old(self).requests()
                },
            },
    {
        let mut present = false;
        let mut pending = false;
        match self.requests.get(&request_id) {
            None => {},
            Some(RequestTask::Pending { .. }) => {
                present = true;
                pending = true;
            },
            Some(RequestTask::Streaming { .. }) => {
                present = true;
            },
        }
        if present && !pending {
            return Err(EngineError::BrokenState);
        }
        let cb = ResponseCallback { version, status, headers: headers_to_jni(headers) };
        if present {
            let (tx, rx) = new_body_channel(capacity);
            let ghost before = self.requests@;
            self.requests.insert(request_id, RequestTask::Streaming { body: rx });
            proof {
                assert(self.requests@.dom() =~= before.dom());
            }
            Ok((cb, Some(tx)))
        } else {
            Ok((cb, None))
        }
    }

    /// The completing unit's failure path: removes the registry entry (the
    /// request is over) and yields the diagnostic message for the host's
    /// `onError` callback.
    pub fn callback_request_error(&mut self, request_id: u32, error_text: &str) -> (msg: String)
        requires
            old(self).wf(),
        ensures
            final(self).wf(),
            final(self).requests() == old(self).requests().remove(request_id),
            final(self).clients() == old(self).clients(),
            final(self).next_id() == old(self).next_id(),
            final(self).spec_next_handle() == old(self).spec_next_handle(),
            msg@ == "Failed to execute request: "@ + error_text@,
    {
        self.requests.remove(&request_id);
        let mut msg = String::new();
        msg.append("Failed to execute request: ");
        msg.append(error_text);
        proof {
            assert(msg@ =~= "Failed to execute request: "@ + error_text@);
        }
        msg
    }

    /// A shared view of the task registered under `id`, if any.
    pub(crate) fn task_ref(&self, id: u32) -> (r: Option<&RequestTask>)
        ensures
            match r {
                Some(t) => self.requests().contains_key(id) && *t == self.requests()[id],
                None => !self.requests().contains_key(id),
            },
    {
        self.requests.get(&id)
    }

    /// Exchange-registration law: the id an execute call hands out is fresh,
    /// and its `Pending` entry still holds the cancel capability.  A cancel
    /// arriving before the exchange completes therefore removes exactly that
    /// entry — returning the registry to its prior state — and instructs the
    /// caller to invoke the capability; with the exchange aborted, neither
    /// completion callback fires for that id in the non-race case (and a
    /// completion that does race the cancel finds no entry, so no body
    /// cursor is ever installed for it).
    pub proof fn lemma_cancel_after_execute(requests: Map<u32, RequestTask>, id: u32)
        requires
            !requests.contains_key(id),
        ensures
            requests.insert(id, RequestTask::Pending { abort: true })[id]
                matches RequestTask::Pending { abort: true },
            requests.insert(id, RequestTask::Pending { abort: true }).remove(id) == requests,
    {
        assert(requests.insert(id, RequestTask::Pending { abort: true }).remove(id) =~= requests);
    }

    /// Unknown-id cancellation law: cancelling an id the registry does not
    /// hold changes nothing — no entry is removed, no abort is signalled,
    /// and no callback can result.
    pub proof fn lemma_cancel_unknown(requests: Map<u32, RequestTask>, id: u32)
        requires
            !requests.contains_key(id),
        ensures
            requests.remove(id) == requests,
    {
        assert(requests.remove(id) =~= requests);
    }

    /// Destroy idempotence law: destroying a handle a second time leaves
    /// the client table exactly as the first destroy left it — the second
    /// call is a no-op.
    pub proof fn lemma_destroy_idempotent(clients: Map<u64, ClientSettings>, handle: u64)
        ensures
            clients.remove(handle).remove(handle) == clients.remove(handle),
    {
        assert(clients.remove(handle).remove(handle) =~= clients.remove(handle));
    }

    /// Zero-handle law: an execute call against handle zero always fails
    /// with the runtime "client closed" error, whatever the rest of the
    /// state — so it can never register a request, let alone reach a
    /// `Streaming` state.
    pub proof fn lemma_execute_zero_handle(
        self,
        url: Seq<char>,
        method: Seq<char>,
        headers: Seq<(Seq<char>, Seq<Seq<char>>)>,
    )
        ensures
            self.execute_error(0, url, method, headers) == Some(EngineError::ClientClosed),
            EngineError::ClientClosed.spec_severity() == crate::errors::Severity::Runtime,
    {
    }

    /// Removes the task registered under `id`, if any.
    pub(crate) fn remove_task(&mut self, id: u32)
        requires
            old(self).wf(),
        ensures
            final(self).wf(),
            final(self).requests() == old(self).requests().remove(id),
            final(self).clients() == old(self).clients(),
            final(self).next_id() == old(self).next_id(),
            final(self).spec_next_handle() == old(self).spec_next_handle(),
    {
        self.requests.remove(&id);
    }
}

} // verus!
