//! Core logic of a dynamic-DNS client: it keeps a single DNS A record in
//! step with the current public IPv4 address of the host.
//!
//! The library is organised around plain decisions on plain values. Network
//! traffic (fetching the public address, talking to the DNS provider) is the
//! caller's business; the caller feeds the responses back in and this crate
//! decides, with proofs, what has to happen next:
//!
//! - [`domain`] derives the apex domain of a fully-qualified name, which
//!   names the zone that holds its records;
//! - [`ip`] validates and parses a dotted-quad IPv4 literal;
//! - [`zone`] selects the zone whose name equals that apex from a zone
//!   listing;
//! - [`record`] plans the create-or-update call that brings the provider's
//!   record in line with the desired state, refusing ambiguous listings;
//! - [`provider`] models the provider's record store and proves the
//!   reconciliation laws (idempotence, create-then-update);
//! - [`scheduler`] is the state machine that drives one reconciliation tick
//!   after another, surviving transient failures.

pub mod domain;
pub mod errors;
pub mod ip;
pub mod provider;
pub mod record;
pub mod scheduler;
pub mod text;
pub mod zone;
