//! The response stream bridge: adapts a completed request's asynchronous
//! byte sequence into a blocking, chunked pull API usable across repeated
//! host calls.
//!
//! A [`ResponseSource`] binds a host-side stream object to a request id
//! (zero meaning "already closed").  Reads locate the body cursor in the
//! registry and pull chunks from it, blocking until the exchange yields a
//! chunk or signals exhaustion; exhaustion closes the instance and removes
//! the registry entry.

use vstd::prelude::*;
use crate::engine::Engine;
use crate::errors::EngineError;
use crate::outside::recv_chunk;
use crate::requests::RequestTask;

verus! {

/// The state a host-side response stream object binds: the id of the
/// request whose body it drains, or `0` once closed.
pub struct ResponseSource {
    request_id: u32,
}

/// Pull-loop fuel: how many more bytes the current read call still wants.
/// A non-positive byte target asks for at most one chunk.
pub open spec fn read_fuel(min_bytes: i64, total: usize) -> int {
    if min_bytes <= 0 {
        0
    } else {
        min_bytes - total
    }
}

impl ResponseSource {
    /// The bound request id; `0` means the source is closed.
    pub closed spec fn bound_id(&self) -> u32 {
        self.request_id
    }

    pub fn new(request_id: u32) -> (s: ResponseSource)
        ensures
            s.bound_id() == request_id,
    {
        ResponseSource { request_id }
    }

    /// Checks that the source is usable: succeeds silently when already
    /// closed (no bound id), and otherwise demands that the bound request
    /// is registered and has a readable body installed — else the caller
    /// receives an argument error.
    pub fn init(&self, engine: &Engine) -> (r: Result<(), EngineError>)
        ensures
            match r {
                Ok(()) => self.bound_id() == 0 || (engine.requests().contains_key(self.bound_id())
                    && engine.requests()[self.bound_id()] matches RequestTask::Streaming { .. }),
                Err(e) => {
                    &&& e == EngineError::NoBody
                    &&& self.bound_id() != 0
                    &&& !(engine.requests().contains_key(self.bound_id())
                        && engine.requests()[self.bound_id()]
                        matches RequestTask::Streaming { .. })
                },
            },
    {
        if self.request_id == 0 {
            return Ok(());
        }
        match engine.task_ref(self.request_id) {
            Some(RequestTask::Streaming { .. }) => Ok(()),
            _ => Err(EngineError::NoBody),
        }
    }

    /// Closes the source: removes the bound request from the registry (if
    /// still bound) and clears the binding.  Idempotent — closing an
    /// already-closed source changes nothing.
    pub fn close(&mut self, engine: &mut Engine)
        requires
            old(engine).wf(),
        ensures
            final(engine).wf(),
            final(self).bound_id() == 0,
            final(engine).clients() == old(engine).clients(),
            final(engine).next_id() == old(engine).next_id(),
            final(engine).spec_next_handle() == old(engine).spec_next_handle(),
            old(self).bound_id() != 0 ==> final(engine).requests() == old(engine).requests().remove(old(self).bound_id()),
            old(self).bound_id() == 0 ==> final(engine).requests() == old(engine).requests(),
    {
        let id = self.request_id;
        if id != 0 {
            clear_request(engine, self, id);
        }
    }

    /// Drains body chunks into `sink` until the running total reaches
    /// `min_bytes` or the source is exhausted, blocking for each missing
    /// chunk.  At least one chunk is pulled even when `min_bytes` is
    /// non-positive.  Returns the byte count delivered in this call, or the
    /// end-of-stream marker `-1` when nothing was delivered; exhaustion
    /// closes the instance and removes the registry entry.  Reading a
    /// request whose body was never installed is an unreachable state and
    /// fails fatally.
    pub fn readAtMostTo(&mut self, engine: &mut Engine, sink: &mut Vec<u8>, min_bytes: i64) -> (r:
        Result<i64, EngineError>)
        requires
            old(engine).wf(),
        ensures
            final(engine).wf(),
            final(engine).clients() == old(engine).clients(),
            final(engine).next_id() == old(engine).next_id(),
            final(engine).spec_next_handle() == old(engine).spec_next_handle(),
            old(sink)@.is_prefix_of(final(sink)@),
            match r {
                Ok(n) => {
                    let written = final(sink)@.len() - old(sink)@.len();
                    &&& (n == -1 <==> written == 0)
                    &&& written > 0 ==> n == (if written > i64::MAX as int {
                        i64::MAX as int
                    } else {
                        written
                    })
                    &&& (old(self).bound_id() == 0 ==> *final(self) == *old(self) && final(engine).requests() == old(engine).requests() && written == 0)
                    &&& (old(self).bound_id() != 0 && !old(engine).requests().contains_key(
                        old(self).bound_id(),
                    ) ==> *final(self) == *old(self) && final(engine).requests() == old(engine).requests() && written == 0)
                    &&& (old(self).bound_id() != 0 && old(engine).requests().contains_key(
                        old(self).bound_id(),
                    ) ==> {
                        &&& old(engine).requests()[old(self).bound_id()]
                            matches RequestTask::Streaming { .. }
                        &&& (final(engine).requests() == old(engine).requests().remove(
                            old(self).bound_id(),
                        ) && final(self).bound_id() == 0) || (final(engine).requests() == old(engine).requests() && *final(self) == *old(self))
                    })
                },
                Err(e) => {
                    &&& e == EngineError::BrokenState
                    &&& old(self).bound_id() != 0
                    &&& old(engine).requests().contains_key(old(self).bound_id())
                    &&& old(engine).requests()[old(self).bound_id()]
                        matches RequestTask::Pending { .. }
                    &&& *final(self) == *old(self)
                    &&& final(engine).requests() == old(engine).requests()
                    &&& final(sink)@ == old(sink)@
                },
            },
    {
        let id = self.request_id;
        if id == 0 {
            return Ok(-1);
        }
        let mut total: usize = 0;
        let mut exhausted = false;
        let mut missing = false;
        let mut pending = false;
        match engine.task_ref(id) {
            None => {
                missing = true;
            },
            Some(RequestTask::Pending { .. }) => {
                pending = true;
            },
            Some(RequestTask::Streaming { body }) => {
                loop
                    invariant
                        total == sink@.len() - old(sink)@.len(),
                        old(sink)@.is_prefix_of(sink@),
                    decreases read_fuel(min_bytes, total),
                {
                    match recv_chunk(body) {
                        None => {
                            exhausted = true;
                            break;
                        },
                        Some(chunk) => {
                            let len = chunk.len();
                            if len == 0 {
                                break;
                            }
                            let mut tmp = chunk;
                            sink.append(&mut tmp);
                            let cur = sink.len();
                            assert(total + len == cur - old(sink)@.len());
                            assert(old(sink)@.is_prefix_of(sink@)) by {
                                assert(sink@.take(old(sink)@.len() as int) =~= old(sink)@);
                            }
                            total = total + len;
                            if min_bytes <= 0 {
                                break;
                            }
                            if total as u128 >= min_bytes as u128 {
                                break;
                            }
                        },
                    }
                }
            },
        }
        if missing {
            return Ok(-1);
        }
        if pending {
            return Err(EngineError::BrokenState);
        }
        if exhausted {
            clear_request(engine, self, id);
        }
        if total == 0 {
            Ok(-1)
        } else if total as u128 > i64::MAX as u128 {
            Ok(i64::MAX)
        } else {
            Ok(total as i64)
        }
    }
}

/// Extracts the request id a source is bound to, `None` once closed.
pub fn get_request_id(source: &ResponseSource) -> (r: Option<u32>)
    ensures
        r == (if source.bound_id() == 0 {
            Option::<u32>::None
        } else {
            Option::Some(source.bound_id())
        }),
{
    if source.request_id == 0 {
        None
    } else {
        Some(source.request_id)
    }
}

/// Clears the bound request id of a source and removes the request from
/// the registry.
pub fn clear_request(engine: &mut Engine, source: &mut ResponseSource, request_id: u32)
    requires
        old(engine).wf(),
    ensures
        final(engine).wf(),
        final(engine).requests() == old(engine).requests().remove(request_id),
        final(engine).clients() == old(engine).clients(),
        final(engine).next_id() == old(engine).next_id(),
        final(engine).spec_next_handle() == old(engine).spec_next_handle(),
        final(source).bound_id() == 0,
{
    engine.remove_task(request_id);
    source.request_id = 0;
}

} // verus!
