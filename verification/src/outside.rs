//! Trusted declarations for the outside crates the engine calls.
//!
//! Each item here is believed, not verified: its contract states what the
//! named outside function does, as that crate's source shows it.  Everything
//! else in this crate is proved against these contracts.

use vstd::prelude::*;

verus! {

/// Whether `url::Url::parse` accepts this input.  The outcome is a function
/// of the characters alone.
pub uninterp spec fn url_parse_ok(s: Seq<char>) -> bool;

/// Whether `http::Method::from_str` accepts this input.  The outcome is a
/// function of the characters alone.
pub uninterp spec fn method_parse_ok(s: Seq<char>) -> bool;

/// Whether `http::header::HeaderName::from_str` accepts this input.  The
/// outcome is a function of the characters alone.
pub uninterp spec fn header_name_ok(s: Seq<char>) -> bool;

/// Whether `http::header::HeaderValue::from_str` accepts this input.  The
/// outcome is a function of the characters alone.
pub uninterp spec fn header_value_ok(s: Seq<char>) -> bool;

/// Relies on `url::Url::parse`: parsing either succeeds or reports a
/// `ParseError`, deterministically in the input string.
#[verifier::external_body]
pub(crate) fn parse_url_ok(s: &str) -> (r: bool)
    ensures
        r == url_parse_ok(s@),
{
    url::Url::parse(s).is_ok()
}

/// Relies on `http::Method::from_str`: parsing either succeeds or reports an
/// `InvalidMethod`, deterministically in the input string.
#[verifier::external_body]
pub(crate) fn parse_method_ok(s: &str) -> (r: bool)
    ensures
        r == method_parse_ok(s@),
{
    <http::Method as std::str::FromStr>::from_str(s).is_ok()
}

/// Relies on `http::header::HeaderName::from_str`: a name is accepted or
/// rejected deterministically in the input string.
#[verifier::external_body]
pub(crate) fn parse_header_name_ok(s: &str) -> (r: bool)
    ensures
        r == header_name_ok(s@),
{
    <http::header::HeaderName as std::str::FromStr>::from_str(s).is_ok()
}

/// Relies on `http::header::HeaderValue::from_str`: a value is accepted or
/// rejected deterministically in the input string.
#[verifier::external_body]
pub(crate) fn parse_header_value_ok(s: &str) -> (r: bool)
    ensures
        r == header_value_ok(s@),
{
    http::header::HeaderValue::from_str(s).is_ok()
}

#[verifier::external_type_specification]
#[verifier::external_body]
#[verifier::reject_recursive_types(T)]
pub struct ExSyncSender<T>(std::sync::mpsc::SyncSender<T>);

#[verifier::external_type_specification]
#[verifier::external_body]
#[verifier::reject_recursive_types(T)]
pub struct ExReceiver<T>(std::sync::mpsc::Receiver<T>);

/// Relies on `std::sync::mpsc::sync_channel`: a bounded FIFO channel whose
/// send side blocks when the buffer is full.  The body cursor of a completed
/// request is the receiving half; the worker that drains the network
/// exchange holds the sending half.
#[verifier::external_body]
pub(crate) fn new_body_channel(capacity: usize) -> (r: (
    std::sync::mpsc::SyncSender<Vec<u8>>,
    std::sync::mpsc::Receiver<Vec<u8>>,
)) {
    std::sync::mpsc::sync_channel(capacity)
}

/// Relies on `std::sync::mpsc::Receiver::recv`: blocks the calling thread
/// until a chunk is available or every sender has disconnected.  `None`
/// means the source is exhausted: all senders are gone and the buffer is
/// drained.  Which chunk arrives depends on the sending side, so nothing
/// more is assumed of the result.
#[verifier::external_body]
pub(crate) fn recv_chunk(rx: &std::sync::mpsc::Receiver<Vec<u8>>) -> (r: Option<Vec<u8>>) {
    rx.recv().ok()
}

} // verus!
