//! A typed, dry-run-aware client model for an organization-management tool
//! talking to a hosted source-forge platform.
//!
//! The crate models the client as a sans-IO core: every operation is split
//! into verified request construction (paths, headers, JSON bodies, the
//! dry-run gate) and verified response interpretation (status codes, link
//! headers, GraphQL envelopes). The surrounding binary owns the actual HTTP
//! transport and feeds responses back in as plain values.

pub mod text;
pub mod json;
pub mod model;
pub mod request;
pub mod outcome;
pub mod pagination;
pub mod graphql;
pub mod collect;
pub mod client;
