//! Authentication core for a bot-listing web service.
//!
//! The crate covers the OAuth2 authorization-code exchange, the dual login
//! modes (browser cookie session vs. the "Frostpaw" custom-client bearer
//! flow), the HMAC-based client nonce challenge, and the access/refresh
//! token lifecycle with cache-based invalidation. Network and database
//! collaborators stay outside; this library holds the decisions and the
//! token bookkeeping, each function with a verified contract.

pub mod cache;
pub mod crypto;
pub mod clients;
pub mod digits;
pub mod docs;
pub mod exchange;
pub mod nonce;
pub mod refresh;
pub mod session;

pub use digits::parse_u64;
pub use digits::u64_to_dec_bytes;
pub use docs::doc_category;
