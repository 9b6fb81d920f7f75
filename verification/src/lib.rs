//! Verified core of the Privara confidential-infrastructure backend:
//! field encryption under per-context keys, salted commitments, session
//! claims, the payroll and governance rules, and the reading of Fhenix
//! JSON-RPC answers.
//!
//! - `encoding`: Base64, hexadecimal and UTF-8, with their specifications.
//! - `digest`: SHA-256 key derivation and commitments.
//! - `cipher`: AES-256-GCM sealing of stored fields and reading them back.
//! - `ids`: UUIDs and UTC instants.
//! - `error`: the error type and its HTTP answer.
//! - `auth`, `payroll`, `governance`, `api`: the rules of the endpoints.
//! - `fhenix`: quantities, receipts and receipt polling of the RPC client.
//! - `text`: predicates over strings.

pub mod api;
pub mod auth;
pub mod cipher;
pub mod digest;
pub mod encoding;
pub mod error;
pub mod fhenix;
pub mod governance;
pub mod ids;
pub mod payroll;
pub mod text;
