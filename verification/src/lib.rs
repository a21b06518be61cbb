//! Category storage for the ads API: cache keys, cache-aside read plans,
//! mutation plans with cache invalidation, and the conversions between the
//! API's category records and the rows kept in the database.
pub mod cache;
pub mod cache_key;
pub mod category;
pub mod engine;
pub mod enum_codec;
pub mod env;
pub mod errors;
pub mod interface;
pub mod laws;
pub mod read;
pub mod record_id;
pub mod write;
