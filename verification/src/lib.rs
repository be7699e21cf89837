//! A verified core for a small lyrics relay.
//!
//! The relay resolves an opaque track identifier against a music-catalog
//! provider, then searches a lyrics provider with the track, first-artist and
//! album names found there. This crate holds the request-planning logic: URL
//! construction with percent-encoding, the bearer header, and the decision
//! steps that turn each upstream outcome into the next request or into a
//! request-level error. The surrounding process performs the actual HTTP
//! calls and hands their outcomes back as plain values.

pub mod relay;
pub mod urls;
