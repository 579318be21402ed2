//! Client configuration as it crosses the host boundary, and its
//! validation.
//!
//! The host hands over a read-only configuration object through a fixed
//! getter set; the boundary glue turns it into an [`ImpersonateConfig`] of
//! plain values.  [`apply_jni_config`] validates that raw form and produces
//! the [`ClientSettings`] the client registry stores: timeouts may not be
//! negative, and a named impersonation profile must be one the underlying
//! client library recognises (a decision the caller passes in as
//! `preset_known`, since only that library can make it).

use vstd::prelude::*;
use crate::errors::EngineError;

verus! {

/// The host-side configuration, read through its getters: every field but
/// the verbose flag is optional, and absent means "use the engine default".
#[derive(Clone, Debug)]
pub struct ImpersonateConfig {
    pub verbose_logging: bool,
    pub preset: Option<String>,
    pub request_timeout_millis: Option<i64>,
    pub connect_timeout_millis: Option<i64>,
    pub idle_timeout_millis: Option<i64>,
    pub allow_invalid_certificates: Option<bool>,
    pub https_only: Option<bool>,
}

/// A validated configuration, as the client registry stores it: timeouts
/// are known non-negative.
#[derive(Clone, Debug, PartialEq, Eq)]
pub struct ClientSettings {
    pub verbose_logging: bool,
    pub preset: Option<String>,
    pub request_timeout_millis: Option<u64>,
    pub connect_timeout_millis: Option<u64>,
    pub idle_timeout_millis: Option<u64>,
    pub allow_invalid_certificates: Option<bool>,
    pub https_only: Option<bool>,
}

/// A non-negative optional duration, converted.
pub open spec fn spec_millis(t: Option<i64>) -> Option<u64> {
    match t {
        Option::Some(v) => Option::Some(v as u64),
        Option::None => Option::None,
    }
}

/// The settings a valid configuration yields.
pub open spec fn settings_of(c: ImpersonateConfig) -> ClientSettings {
    ClientSettings {
        verbose_logging: c.verbose_logging,
        preset: c.preset,
        request_timeout_millis: spec_millis(c.request_timeout_millis),
        connect_timeout_millis: spec_millis(c.connect_timeout_millis),
        idle_timeout_millis: spec_millis(c.idle_timeout_millis),
        allow_invalid_certificates: c.allow_invalid_certificates,
        https_only: c.https_only,
    }
}

/// The failure a configuration produces, if any: an unknown profile name is
/// reported first, then a negative timeout.
pub open spec fn config_error(c: ImpersonateConfig, preset_known: bool) -> Option<EngineError> {
    if c.preset is Some && !preset_known {
        Some(EngineError::UnknownPreset)
    } else if (c.request_timeout_millis matches Some(t) && t < 0) || (c.connect_timeout_millis
        matches Some(t) && t < 0) || (c.idle_timeout_millis matches Some(t) && t < 0) {
        Some(EngineError::BadDuration)
    } else {
        None
    }
}

fn convert_millis(t: &Option<i64>) -> (r: Result<Option<u64>, EngineError>)
    ensures
        match r {
            Ok(m) => !(*t matches Some(v) && v < 0) && m == spec_millis(*t),
            Err(e) => e == EngineError::BadDuration && (*t matches Some(v) && v < 0),
        },
{
    match t {
        Some(v) => {
            if *v < 0 {
                Err(EngineError::BadDuration)
            } else {
                Ok(Some(*v as u64))
            }
        },
        None => Ok(None),
    }
}

/// Validates the host configuration and produces the settings the client
/// registry stores.  `preset_known` is the underlying client library's
/// verdict on the configured profile name (irrelevant when no profile is
/// named).  Fails on an unknown profile first, then on the first negative
/// timeout.
pub fn apply_jni_config(config: &ImpersonateConfig, preset_known: bool) -> (r: Result<
    ClientSettings,
    EngineError,
>)
    ensures
        match r {
            Ok(s) => config_error(*config, preset_known) is None && s == settings_of(*config),
            Err(e) => Some(e) == config_error(*config, preset_known),
        },
{
    let preset: Option<String> = match &config.preset {
        Some(p) => {
            if !preset_known {
                return Err(EngineError::UnknownPreset);
            }
            Some(p.clone())
        },
        None => None,
    };
    let request_timeout_millis = match convert_millis(&config.request_timeout_millis) {
        Ok(m) => m,
        Err(e) => { return Err(e); },
    };
    let connect_timeout_millis = match convert_millis(&config.connect_timeout_millis) {
        Ok(m) => m,
        Err(e) => { return Err(e); },
    };
    let idle_timeout_millis = match convert_millis(&config.idle_timeout_millis) {
        Ok(m) => m,
        Err(e) => { return Err(e); },
    };
    Ok(ClientSettings {
        verbose_logging: config.verbose_logging,
        preset,
        request_timeout_millis,
        connect_timeout_millis,
        idle_timeout_millis,
        allow_invalid_certificates: config.allow_invalid_certificates,
        https_only: config.https_only,
    })
}

} // verus!
