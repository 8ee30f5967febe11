//! Caching proxy core for a sparse Rust package registry: request routing,
//! index entry and crate identities, cache validators, the in-memory metadata
//! cache, and the decisions of the fetch workers.

pub mod config_json;
pub mod crate_info;
pub mod dispatch;
pub mod http_date;
pub mod index_entry;
pub mod metadata_cache;
pub mod response;
pub mod settings;
pub mod text;
pub mod upstream;
pub mod url_text;
pub mod worker;

pub use config_json::ProxyConfig;
pub use crate_info::CrateInfo;
pub use index_entry::IndexEntry;
pub use metadata_cache::MetadataCache;
