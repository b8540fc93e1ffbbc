//! The request-authenticity core of a small image board for a chat
//! community: logging in through an OAuth2 provider with PKCE, opaque
//! sessions kept in a shared store, and the verification of signed webhook
//! requests. The crate decides and describes; its caller talks to the
//! store, the provider and the platform.

pub mod auth;
pub mod error;
pub mod handler;
pub mod interact;
pub mod lifecycle;
pub mod oauth;
pub mod random;
pub mod router;
pub mod session;
pub mod signature_validation;
pub mod state;
pub mod store;
pub mod text;
pub mod upload;

pub use crate::error::Error;
pub use crate::random::randstring;
pub use crate::router::{check_truthy, router};
pub use crate::state::AppState;
