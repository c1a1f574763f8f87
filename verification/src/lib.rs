//! Client-side protocol logic for a weed-fs blob-storage cluster.
//!
//! A master ("directory") server hands out placement tickets and resolves
//! file ids back to the volume servers holding the replicas; volume servers
//! store and serve the actual bytes. This crate owns the protocol's pure
//! core: the file-id codec, the upload/download URL resolver, the flat
//! success-or-error response envelope, the query strings sent to the master,
//! and the closed error taxonomy. The HTTP transport that carries these
//! values over the wire is the embedder's concern.

pub mod envelope;
pub mod error;
pub mod protocol;
pub mod types;
pub mod utils;

pub use utils::get_volume_id;
