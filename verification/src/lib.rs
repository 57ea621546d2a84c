//! A verified client core for Torznab/Newznab-style search indexers:
//! capability modeling, typed query building and encoding, search-response
//! decoding, and the planning and bookkeeping of a concurrent multi-indexer
//! run. Network transport, configuration, and task scheduling live with the
//! callers; everything here is pure and verified.
pub mod capabilities;
pub mod client;
pub mod decimal;
pub mod error;
pub mod functions;
pub mod orchestrator;
pub mod search_parameters;
pub mod torrent_result;
