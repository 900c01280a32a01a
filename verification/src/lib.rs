//! Storage of canonical chain segments in an object store, the Google Cloud
//! Storage side of that object store, and the subscription to new block heads.

pub mod archive;
pub mod block_id;
pub mod buffer;
pub mod chain_laws;
pub mod chain_store;
pub mod client;
pub mod clock;
pub mod decimal;
pub mod gcs;
pub mod gcs_laws;
pub mod json;
pub mod names;
pub mod object_store;
pub mod ws;
