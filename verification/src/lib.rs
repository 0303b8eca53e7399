//! A remote asset source: loads binary assets and their sidecar metadata by
//! URL instead of from a local filesystem.
//!
//! The pieces compose as follows: a relative asset path is turned into an
//! absolute URI (`uri`), an origin policy decides which endpoints may be
//! contacted (`policy`), a write-once disk cache keyed by a hash of the URL
//! short-circuits repeated fetches (`hashing`, `cache`), and transport
//! outcomes are classified into a stable error taxonomy (`fetch`). The
//! `source` module ties them together into the asset-source capability set
//! {read, read_meta, is_directory, read_directory}.

pub mod cache;
pub mod fetch;
pub mod hashing;
pub mod policy;
pub mod source;
pub mod uri;
