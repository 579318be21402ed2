//! Decisions of the certificate/profile provider path: which certificates
//! make a usable verify store, and how a client's store is assembled from
//! the process-wide cache.
//!
//! The actual loading and the TLS store objects live with the unverified
//! rim; this module owns the rules: a store built from an all-invalid,
//! non-empty certificate list is an error, and a client falls back to the
//! TLS library's default paths only when the cached platform load failed.

use vstd::prelude::*;
use crate::errors::EngineError;

verus! {

/// How many of the parse outcomes succeeded.
pub open spec fn count_valid(s: Seq<bool>) -> int
    decreases s.len(),
{
    if s.len() == 0 {
        0
    } else {
        count_valid(s.drop_last()) + (if s.last() {
            1int
        } else {
            0int
        })
    }
}

/// Builds a verify store from per-certificate parse outcomes (`true` for a
/// certificate that parsed and was added).  Returns the number of
/// certificates added; fails — as a runtime error — exactly when
/// certificates were presented and every one of them was invalid.
pub fn build_store(outcomes: &Vec<bool>) -> (r: Result<usize, EngineError>)
    ensures
        match r {
            Ok(n) => {
                &&& n == count_valid(outcomes@)
                &&& (outcomes@.len() == 0 || count_valid(outcomes@) > 0)
            },
            Err(e) => {
                &&& e == EngineError::CertStoreFailed
                &&& outcomes@.len() > 0
                &&& count_valid(outcomes@) == 0
            },
        },
{
    let n = outcomes.len();
    let mut valid: usize = 0;
    let mut i: usize = 0;
    while i < n
        invariant
            0 <= i <= n,
            n == outcomes@.len(),
            valid == count_valid(outcomes@.take(i as int)),
            valid <= i,
        decreases n - i,
    {
        proof {
            assert(outcomes@.take(i + 1).drop_last() =~= outcomes@.take(i as int));
            assert(outcomes@.take(i + 1).last() == outcomes@[i as int]);
        }
        if outcomes[i] {
            valid = valid + 1;
        }
        i += 1;
    }
    proof {
        assert(outcomes@.take(n as int) =~= outcomes@);
    }
    if valid == 0 && n > 0 {
        Err(EngineError::CertStoreFailed)
    } else {
        Ok(valid)
    }
}

/// Every cached certificate was re-added successfully.
pub open spec fn all_added(v: Seq<bool>) -> bool {
    forall|i: int| 0 <= i < v.len() ==> #[trigger] v[i] == true
}

/// How a client's verify store is assembled.
#[derive(Clone, Copy, Debug, PartialEq, Eq, Structural)]
pub enum StorePlan {
    /// Re-add the given number of certificates from the process-wide cache.
    FromCached(usize),
    /// The cached platform load failed: fall back to the TLS library's
    /// default certificate paths.
    DefaultPaths,
}

/// Decides a new client's verify store from the state of the process-wide
/// certificate cache: `None` when the platform load failed (fall back to
/// default paths), otherwise the per-certificate outcomes of re-adding the
/// cached certificates, any one failure poisoning the store.
pub fn get_cached_verify_store(cached: Option<&Vec<bool>>) -> (r: Result<StorePlan, EngineError>)
    ensures
        match r {
            Ok(plan) => match plan {
                StorePlan::FromCached(n) => cached matches Some(v) && n == v@.len()
                    && all_added(v@),
                StorePlan::DefaultPaths => cached is None,
            },
            Err(e) => {
                &&& e == EngineError::CertStoreFailed
                &&& cached matches Some(v) && !all_added(v@)
            },
        },
{
    match cached {
        None => Ok(StorePlan::DefaultPaths),
        Some(added) => {
            let n = added.len();
            let mut i: usize = 0;
            while i < n
                invariant
                    cached == Some(added),
                    0 <= i <= n,
                    n == added@.len(),
                    forall|k: int| 0 <= k < i ==> added@[k] == true,
                decreases n - i,
            {
                if !added[i] {
                    proof {
                        assert(!all_added(added@)) by {
                            assert(added@[i as int] == false);
                        }
                    }
                    return Err(EngineError::CertStoreFailed);
                }
                i += 1;
            }
            Ok(StorePlan::FromCached(n))
        },
    }
}

} // verus!
