//! A minimal authoritative DNS responder core.
//!
//! [`message`] models DNS queries and responses as plain values, [`resolver`]
//! holds the static answer table and the query-to-response step, and [`wire`]
//! moves messages to and from the DNS wire format through `trust_dns_proto`.
pub mod message;
pub mod resolver;
pub mod wire;
