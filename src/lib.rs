//! An authenticated forwarding gateway: validates the caller and the target
//! URL, refuses private and internal hosts, and derives the backend and the
//! outbound request for the origin.
pub mod text;
pub mod ssrf;
pub mod response;
pub mod validate;
pub mod backend;
pub mod transform;
pub mod pipeline;
pub mod laws;
