//! Ingestion core for short-range wireless environment sensors: vendor payload
//! codecs, a per-minute deduplication buffer and the device catalog it serves.

pub mod device;
pub mod device_type;
pub mod text;
pub mod codec;
pub mod csv_format;
pub mod ratocsystems;
pub mod clock;
pub mod dedup;
pub mod ingest;
pub mod measurement;
pub mod registry;
pub mod sink;
