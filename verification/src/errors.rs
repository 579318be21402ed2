use vstd::prelude::*;

verus! {

/// How a failure surfaces at the host boundary.
///
/// `Argument` failures abort only the offending call and are reported as an
/// illegal-argument signal; `Runtime` failures are reported as a generic
/// failure signal; `Fatal` failures indicate a broken internal invariant and
/// terminate the current native call abruptly instead of degrading.
#[derive(Clone, Copy, Debug, PartialEq, Eq, Structural)]
pub enum Severity {
    Argument,
    Runtime,
    Fatal,
}

/// Every failure the engine can report, across all entry points.
#[derive(Clone, Copy, Debug, PartialEq, Eq, Structural)]
pub enum EngineError {
    /// The request url does not parse.
    BadUrl,
    /// The HTTP method token does not parse (for instance, it is empty).
    BadMethod,
    /// A header name is not a valid token.
    BadHeaderName,
    /// A header value holds forbidden bytes.
    BadHeaderValue,
    /// A configured timeout is negative.
    BadDuration,
    /// The configured impersonation profile name is not recognised.
    UnknownPreset,
    /// The stream's bound request has no readable body in the registry.
    NoBody,
    /// The client handle is zero or no longer registered.
    ClientClosed,
    /// The certificate trust store could not be obtained.
    CertStoreFailed,
    /// A reference-cache entry was read before init completed or after
    /// release began.
    CacheUnavailable,
    /// An internal invariant did not hold (an unreachable state transition).
    BrokenState,
}

impl EngineError {
    /// The boundary classification of this error.
    pub open spec fn spec_severity(self) -> Severity {
        match self {
            EngineError::BadUrl => Severity::Argument,
            EngineError::BadMethod => Severity::Argument,
            EngineError::BadHeaderName => Severity::Argument,
            EngineError::BadHeaderValue => Severity::Argument,
            EngineError::BadDuration => Severity::Argument,
            EngineError::UnknownPreset => Severity::Argument,
            EngineError::NoBody => Severity::Argument,
            EngineError::ClientClosed => Severity::Runtime,
            EngineError::CertStoreFailed => Severity::Runtime,
            EngineError::CacheUnavailable => Severity::Fatal,
            EngineError::BrokenState => Severity::Fatal,
        }
    }

    pub fn severity(&self) -> (s: Severity)
        ensures
            s == self.spec_severity(),
    {
        match self {
            EngineError::BadUrl => Severity::Argument,
            EngineError::BadMethod => Severity::Argument,
            EngineError::BadHeaderName => Severity::Argument,
            EngineError::BadHeaderValue => Severity::Argument,
            EngineError::BadDuration => Severity::Argument,
            EngineError::UnknownPreset => Severity::Argument,
            EngineError::NoBody => Severity::Argument,
            EngineError::ClientClosed => Severity::Runtime,
            EngineError::CertStoreFailed => Severity::Runtime,
            EngineError::CacheUnavailable => Severity::Fatal,
            EngineError::BrokenState => Severity::Fatal,
        }
    }

    /// The diagnostic text the host receives with the signal.
    pub fn message(&self) -> (m: &'static str)
        ensures
            self is BadUrl ==> m@ == "Failed to parse url"@,
            self is BadMethod ==> m@ == "HTTP method cannot be of 0 length"@,
            self is BadHeaderName ==> m@ == "Invalid header name!"@,
            self is BadHeaderValue ==> m@ == "Invalid header value"@,
            self is BadDuration ==> m@ == "Timeout duration cannot be negative"@,
            self is UnknownPreset ==> m@ == "Unknown impersonate preset"@,
            self is NoBody ==> m@ == "Target request id does not have a body stream"@,
            self is ClientClosed ==> m@ == "Client is already closed!"@,
            self is CertStoreFailed ==> m@ == "Failed to load certificates"@,
            self is CacheUnavailable ==> m@ == "JNI cache already cleaned up"@,
            self is BrokenState ==> m@ == "BUG: broken engine invariant"@,
    {
        match self {
            EngineError::BadUrl => "Failed to parse url",
            EngineError::BadMethod => "HTTP method cannot be of 0 length",
            EngineError::BadHeaderName => "Invalid header name!",
            EngineError::BadHeaderValue => "Invalid header value",
            EngineError::BadDuration => "Timeout duration cannot be negative",
            EngineError::UnknownPreset => "Unknown impersonate preset",
            EngineError::NoBody => "Target request id does not have a body stream",
            EngineError::ClientClosed => "Client is already closed!",
            EngineError::CertStoreFailed => "Failed to load certificates",
            EngineError::CacheUnavailable => "JNI cache already cleaned up",
            EngineError::BrokenState => "BUG: broken engine invariant",
        }
    }
}

} // verus!
