pub mod canonical;
pub mod canonical_reading;
pub mod canonical_strict;
pub mod config;
pub mod errors;
pub mod image_caching;
pub mod image_manipulation;
pub mod images;
pub mod memory_cache;
pub mod sidecar_reading;
pub mod validations;
