//! A verified market-data protocol adapter: publisher resolution, vendor
//! record normalization, historical batch processing, and the dispatch and
//! fairness rules of a live streaming session.
//!
//! The vendor's transport — connecting, authenticating, issuing requests and
//! decoding bytes off the wire — stays outside this crate; callers hand the
//! library decoded records as plain values and perform the actions its state
//! machines decide.

pub mod errors;
pub mod model;
pub mod schema;
pub mod normalize;
pub mod publishers;
pub mod live;
pub mod historical;
