//! Error taxonomy: transport failures, decode failures, per-item result
//! failures, and capability mismatches. Every failure is a typed value;
//! no routine in this crate panics on malformed or unsupported input.
use vstd::prelude::*;

verus! {

/// A failed request: connection failure, timeout, or a non-2xx status.
/// The status is kept when one was received; the message describes the
/// failure for reporting.
#[derive(Debug, Clone)]
pub struct TransportError {
    pub status: Option<u16>,
    pub message: String,
}

/// A malformed or unrecognized document or token.
#[derive(Debug, Clone, Copy, PartialEq, Eq, Structural)]
pub enum DecodeError {
    /// A search-type token of a capability document that maps to no known
    /// search capability.
    UnknownSearchType,
    /// A supported-parameter token of a capability document that maps to no
    /// known parameter.
    UnknownParam,
    /// A search response that could not be read as a syndication feed.
    MalformedFeed,
    /// A discovery response that could not be read as a capability
    /// document.
    MalformedCapabilities,
}

/// A feed item that lacks a field required of every search result.
#[derive(Debug, Clone, Copy, PartialEq, Eq, Structural)]
pub enum ResultError {
    MissingTitle,
    MissingLink,
}

/// A requested search that the indexer's advertised capabilities do not
/// cover: either the search type itself, or one of the parameters used.
#[derive(Debug, Clone, Copy, PartialEq, Eq, Structural)]
pub enum CapabilityMismatch {
    SearchTypeUnsupported,
    ParamUnsupported,
}

/// Any failure of one search against one indexer.
#[derive(Debug, Clone)]
pub enum ClientError {
    HttpError(TransportError),
    DecodeError(DecodeError),
    SearchResultError(ResultError),
    CapabilityMismatch(CapabilityMismatch),
    /// A search function this client cannot encode yet.
    UnsupportedFunction,
}

} // verus!
