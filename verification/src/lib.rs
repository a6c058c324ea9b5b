//! Client-side core of a remote file-hosting service protocol: typed request
//! builders and a response-envelope dispatcher.
//!
//! The service answers every endpoint with one untagged JSON shape; this
//! library classifies that shape into a typed result in a fixed priority
//! order, and renders request descriptions into transport-neutral plans
//! (method, path, query, headers, body). The HTTP transport itself lives
//! outside the library.

pub mod api;
pub mod dispatch;
pub mod error;
pub mod json;
pub mod laws;
pub mod plan;
pub mod render;

pub use api::WaifuError;
pub use api::WaifuGetRequest;
pub use api::WaifuModificationRequest;
pub use api::WaifuUploadRequest;
pub use dispatch::WaifuApiResponse;
pub use error::VaultError;
